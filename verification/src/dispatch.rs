//! Argument extraction: the all-or-nothing marshalling step of command
//! dispatch.
//!
//! Each declared parameter is removed from the argument bag by name, in
//! declared order. An absent parameter is a missing-argument error naming
//! it; a present one of the wrong shape an invalid-argument error naming
//! it; the first offender in declared order decides. Keys the schema does
//! not declare are ignored.

use vstd::prelude::*;

use crate::error::DispatchError;
use crate::error::DispatchErrorModel;
use crate::schema::ParamModel;
use crate::schema::ParamSpec;
use crate::schema::check_shape;
use crate::schema::param_names_unique;
use crate::schema::params_view;
use crate::schema::shape_matches;
use crate::value::ProtocolValue;
use crate::value::ValueModel;
use crate::value::lemma_list_view_index;
use crate::value::list_view;
use crate::valuemap::ParameterMap;

verus! {

/// Model of extraction: remove each declared parameter from the bag in
/// declared order; absent is a missing-argument error, ill-shaped an
/// invalid-argument error, and on success the raw values stand in declared
/// order.
pub open spec fn extract_outcome(
    decl: Seq<ParamModel>,
    args: Map<Seq<char>, ValueModel>,
) -> Result<Seq<ValueModel>, DispatchErrorModel>
    decreases decl.len(),
{
    if decl.len() == 0 {
        Ok(Seq::empty())
    } else {
        let p = decl[0];
        if !args.contains_key(p.name) {
            Err(DispatchErrorModel::MissingArgument(p.name))
        } else if !shape_matches(p.ty, args[p.name]) {
            Err(DispatchErrorModel::InvalidArgument(p.name))
        } else {
            match extract_outcome(decl.subrange(1, decl.len() as int), args.remove(p.name)) {
                Ok(rest) => Ok(seq![args[p.name]] + rest),
                Err(e) => Err(e),
            }
        }
    }
}

/// Prepends already-extracted values to the outcome of the remaining
/// extraction.
pub open spec fn compose_extract(
    prefix: Seq<ValueModel>,
    rest: Result<Seq<ValueModel>, DispatchErrorModel>,
) -> Result<Seq<ValueModel>, DispatchErrorModel> {
    match rest {
        Ok(vals) => Ok(prefix + vals),
        Err(e) => Err(e),
    }
}

/// Pushing a value appends its model to the list's model.
proof fn lemma_list_view_push(s: Seq<ProtocolValue>, x: ProtocolValue)
    ensures
        list_view(s.push(x)) == list_view(s) + seq![x@],
{
    lemma_list_view_index(s.push(x));
    lemma_list_view_index(s);
    assert(list_view(s.push(x)) =~= list_view(s) + seq![x@]);
}

/// Removes the declared parameters from `params` in declared order,
/// shape-checking each; the outcome is exactly [`extract_outcome`] on the
/// bag the caller handed in.
pub fn extract_args(params: ParameterMap, decl: &Vec<ParamSpec>) -> (r: Result<
    Vec<ProtocolValue>,
    DispatchError,
>)
    ensures
        match extract_outcome(params_view(decl@), params@) {
            Ok(vals) => r matches Ok(vs) && list_view(vs@) == vals,
            Err(em) => r matches Err(e) && e@ == em,
        },
{
    let ghost full = params_view(decl@);
    let ghost args0 = params@;
    let mut cur = params;
    let mut out: Vec<ProtocolValue> = Vec::new();
    let mut i: usize = 0;
    proof {
        assert(full.subrange(0, full.len() as int) =~= full);
        match extract_outcome(full, args0) {
            Ok(vals) => {
                assert(list_view(out@) + vals =~= vals);
            },
            Err(_) => {},
        }
    }
    while i < decl.len()
        invariant
            i <= decl@.len(),
            full == params_view(decl@),
            args0 == params@,
            extract_outcome(full, args0) == compose_extract(
                list_view(out@),
                extract_outcome(full.subrange(i as int, full.len() as int), cur@),
            ),
        decreases decl@.len() - i,
    {
        let ghost sub = full.subrange(i as int, full.len() as int);
        let ghost before = cur@;
        proof {
            assert(sub[0] == decl@[i as int]@);
            assert(sub.subrange(1, sub.len() as int) =~= full.subrange(
                i + 1 as int,
                full.len() as int,
            ));
        }
        let p = &decl[i];
        match cur.remove(p.name.as_str()) {
            None => {
                proof {
                    assert(extract_outcome(sub, before) == Err::<
                        Seq<ValueModel>,
                        DispatchErrorModel,
                    >(DispatchErrorModel::MissingArgument(sub[0].name)));
                }
                return Err(DispatchError::MissingArgument(p.name.clone()));
            },
            Some(v) => {
                if !check_shape(p.ty, &v) {
                    proof {
                        assert(extract_outcome(sub, before) == Err::<
                            Seq<ValueModel>,
                            DispatchErrorModel,
                        >(DispatchErrorModel::InvalidArgument(sub[0].name)));
                    }
                    return Err(DispatchError::InvalidArgument(p.name.clone()));
                }
                proof {
                    lemma_list_view_push(out@, v);
                    assert(extract_outcome(sub, before) == match extract_outcome(
                        sub.subrange(1, sub.len() as int),
                        before.remove(p.name@),
                    ) {
                        Ok(rest) => Ok::<Seq<ValueModel>, DispatchErrorModel>(
                            seq![before[p.name@]] + rest,
                        ),
                        Err(e) => Err::<Seq<ValueModel>, DispatchErrorModel>(e),
                    });
                    match extract_outcome(sub.subrange(1, sub.len() as int), before.remove(p.name@)) {
                        Ok(rest) => {
                            assert(list_view(out@) + (seq![v@] + rest) =~= (list_view(out@)
                                + seq![v@]) + rest);
                        },
                        Err(_) => {},
                    }
                }
                out.push(v);
            },
        }
        i = i + 1;
    }
    proof {
        assert(full.subrange(i as int, full.len() as int) =~= Seq::<ParamModel>::empty());
        assert(extract_outcome(Seq::empty(), cur@) == Ok::<
            Seq<ValueModel>,
            DispatchErrorModel,
        >(Seq::empty()));
        assert(list_view(out@) + Seq::<ValueModel>::empty() =~= list_view(out@));
    }
    Ok(out)
}

/// Missing-argument detection: when every parameter declared before `i` is
/// present and well-shaped and the one at `i` is absent, extraction reports
/// exactly that parameter as missing.
pub proof fn lemma_missing_argument(decl: Seq<ParamModel>, args: Map<Seq<char>, ValueModel>, i: int)
    requires
        param_names_unique(decl),
        0 <= i < decl.len(),
        !args.contains_key(decl[i].name),
        forall|j: int|
            0 <= j < i ==> args.contains_key(decl[j].name) && shape_matches(
                decl[j].ty,
                args[decl[j].name],
            ),
    ensures
        extract_outcome(decl, args) == Err::<Seq<ValueModel>, DispatchErrorModel>(
            DispatchErrorModel::MissingArgument(decl[i].name),
        ),
    decreases i,
{
    if i > 0 {
        let p = decl[0];
        let sub = decl.subrange(1, decl.len() as int);
        let args2 = args.remove(p.name);
        assert(decl[i].name != p.name);
        assert(!args2.contains_key(sub[i - 1].name));
        assert forall|j: int| 0 <= j < i - 1 implies args2.contains_key(sub[j].name)
            && shape_matches(sub[j].ty, args2[sub[j].name]) by {
            assert(sub[j] == decl[j + 1]);
            assert(decl[j + 1].name != p.name);
        }
        lemma_missing_argument(sub, args2, i - 1);
    }
}

/// Extra-key tolerance: a key that no declared parameter carries plays no
/// part in extraction.
pub proof fn lemma_extra_key_ignored(
    decl: Seq<ParamModel>,
    args: Map<Seq<char>, ValueModel>,
    k: Seq<char>,
)
    requires
        forall|j: int| 0 <= j < decl.len() ==> decl[j].name != k,
    ensures
        extract_outcome(decl, args.remove(k)) == extract_outcome(decl, args),
    decreases decl.len(),
{
    if decl.len() > 0 {
        let p = decl[0];
        let sub = decl.subrange(1, decl.len() as int);
        assert(p.name != k);
        assert(args.remove(k).contains_key(p.name) == args.contains_key(p.name));
        if args.contains_key(p.name) {
            assert(args.remove(k)[p.name] == args[p.name]);
            assert(args.remove(k).remove(p.name) =~= args.remove(p.name).remove(k));
            lemma_extra_key_ignored(sub, args.remove(p.name), k);
        }
    }
}

/// Totality of the marshalling step: every extraction failure is one of
/// the two classified argument errors, never anything else.
pub proof fn lemma_extract_error_classified(decl: Seq<ParamModel>, args: Map<Seq<char>, ValueModel>)
    ensures
        extract_outcome(decl, args) matches Err(e) ==> (e is MissingArgument
            || e is InvalidArgument),
    decreases decl.len(),
{
    if decl.len() > 0 {
        let p = decl[0];
        if args.contains_key(p.name) && shape_matches(p.ty, args[p.name]) {
            lemma_extract_error_classified(
                decl.subrange(1, decl.len() as int),
                args.remove(p.name),
            );
        }
    }
}

/// Successful extraction hands back one value per declared parameter, each
/// of the declared shape.
pub proof fn lemma_extract_shapes(decl: Seq<ParamModel>, args: Map<Seq<char>, ValueModel>)
    ensures
        extract_outcome(decl, args) matches Ok(vals) ==> vals.len() == decl.len() && forall|j: int|
            0 <= j < decl.len() ==> shape_matches(decl[j].ty, vals[j]),
    decreases decl.len(),
{
    if decl.len() > 0 && extract_outcome(decl, args) is Ok {
        let p = decl[0];
        let sub = decl.subrange(1, decl.len() as int);
        let args2 = args.remove(p.name);
        lemma_extract_shapes(sub, args2);
        let vals = extract_outcome(decl, args)->Ok_0;
        let rest = extract_outcome(sub, args2)->Ok_0;
        assert forall|j: int| 0 <= j < decl.len() implies shape_matches(decl[j].ty, vals[j]) by {
            if j > 0 {
                assert(sub[j - 1] == decl[j]);
                assert(vals[j] == rest[j - 1]);
            }
        }
    }
}

/// When every declared parameter is present and well-shaped, extraction
/// succeeds with exactly those values in declared order.
pub proof fn lemma_extract_success(decl: Seq<ParamModel>, args: Map<Seq<char>, ValueModel>)
    requires
        param_names_unique(decl),
        forall|j: int|
            0 <= j < decl.len() ==> args.contains_key(decl[j].name) && shape_matches(
                decl[j].ty,
                args[decl[j].name],
            ),
    ensures
        extract_outcome(decl, args) matches Ok(vals) && vals.len() == decl.len() && forall|j: int|
            0 <= j < decl.len() ==> vals[j] == args[decl[j].name],
    decreases decl.len(),
{
    if decl.len() > 0 {
        let p = decl[0];
        let sub = decl.subrange(1, decl.len() as int);
        let args2 = args.remove(p.name);
        assert forall|j: int| 0 <= j < sub.len() implies args2.contains_key(sub[j].name)
            && shape_matches(sub[j].ty, args2[sub[j].name]) by {
            assert(sub[j] == decl[j + 1]);
            assert(decl[j + 1].name != p.name);
        }
        lemma_extract_success(sub, args2);
        let vals = extract_outcome(decl, args)->Ok_0;
        let rest = extract_outcome(sub, args2)->Ok_0;
        assert forall|j: int| 0 <= j < decl.len() implies vals[j] == args[decl[j].name] by {
            if j > 0 {
                assert(rest[j - 1] == args2[sub[j - 1].name]);
                assert(sub[j - 1] == decl[j]);
                assert(decl[j].name != p.name);
            }
        }
    }
}

} // verus!
