//! The module shell: the single capability surface the runtime invokes.
//!
//! It composes the command dispatcher, the variable dispatcher and the
//! readiness hook over a slot table built once at construction. Dispatch is
//! total: every inbound pair of slot id and name either reaches a typed
//! handler or yields a classified error, and the shell never panics.

use vstd::prelude::*;

use crate::codec::decode_int;
use crate::codec::decode_text;
use crate::codec::encode_bool;
use crate::codec::encode_unit;
use crate::codec::encode_value;
use crate::dispatch::extract_args;
use crate::dispatch::extract_outcome;
use crate::dispatch::lemma_extract_shapes;
use crate::error::DispatchError;
use crate::error::DispatchErrorModel;
use crate::schema::CommandSpec;
use crate::schema::CommandTag;
use crate::schema::SlotEntry;
use crate::schema::SlotModel;
use crate::schema::SlotRole;
use crate::schema::SlotTag;
use crate::schema::VariableSpec;
use crate::schema::VariableTag;
use crate::schema::build_module_table;
use crate::schema::check_shape;
use crate::schema::command_at;
use crate::schema::command_exists;
use crate::schema::command_index;
use crate::schema::commands_view;
use crate::schema::example_commands;
use crate::schema::kvs_commands;
use crate::schema::lemma_module_table_wf;
use crate::schema::module_table;
use crate::schema::shape_matches;
use crate::schema::slot_at;
use crate::schema::slot_exists;
use crate::schema::slot_index;
use crate::schema::slots_view;
use crate::schema::table_wf;
use crate::schema::variable_at;
use crate::schema::variable_exists;
use crate::schema::variable_index;
use crate::schema::variables_view;
use crate::services::ExampleService;
use crate::services::ExampleSubscriber;
use crate::services::KvsService;
use crate::services::Module;
use crate::value::ProtocolValue;
use crate::value::lemma_list_view_index;
use crate::value::list_view;
use crate::value::str_eq;
use crate::valuemap::ParameterMap;

verus! {

/// The shell's lifecycle: constructed and wired, then running once the
/// readiness hook has fired. Running is terminal.
#[derive(Debug, PartialEq, Eq, Clone, Copy, Structural)]
pub enum ShellState {
    /// Slots are wired; the readiness hook has not fired yet.
    Constructed,
    /// The readiness hook has fired; traffic has begun.
    Running,
}

/// Translates between the string-addressed protocol the runtime speaks and
/// the specific typed module the author wrote: the module shell.
pub struct GenericToSpecificModuleProxy<T: Module> {
    module: T,
    table: Vec<SlotEntry>,
    state: ShellState,
}

/// Finds the slot of role `role` with id `name` in the table.
fn find_slot<'a>(table: &'a Vec<SlotEntry>, role: SlotRole, name: &str) -> (r: Option<
    &'a SlotEntry,
>)
    requires
        slots_view(table@) == module_table(),
    ensures
        match r {
            Some(e) => slot_exists(module_table(), role, name@) && e@ == slot_at(
                module_table(),
                role,
                name@,
            ),
            None => !slot_exists(module_table(), role, name@),
        },
{
    proof {
        lemma_module_table_wf();
    }
    let ghost t = module_table();
    let mut i: usize = 0;
    while i < table.len()
        invariant
            i <= table@.len(),
            slots_view(table@) == module_table(),
            t == module_table(),
            table_wf(module_table()),
            forall|j: int|
                0 <= j < i ==> !(table@[j]@.role == role && table@[j]@.name == name@),
        decreases table@.len() - i,
    {
        let entry = &table[i];
        if entry.role == role && str_eq(entry.name.as_str(), name) {
            proof {
                assert(slots_view(table@)[i as int] == entry@);
                assert(slot_exists(t, role, name@));
                lemma_module_table_wf();
                let j = slot_index(t, role, name@);
                assert(0 <= j < t.len() && t[j].role == role && t[j].name == name@);
                assert(t[i as int] == entry@);
                assert(j == i as int);
            }
            return Some(entry);
        }
        i = i + 1;
    }
    proof {
        if slot_exists(t, role, name@) {
            let j = slot_index(t, role, name@);
            assert(0 <= j < t.len() && t[j].role == role && t[j].name == name@);
            assert(slots_view(table@)[j] == table@[j]@);
        }
    }
    None
}

/// Finds the command named `name` in a slot's interface.
fn find_command<'a>(
    commands: &'a Vec<CommandSpec>,
    name: &str,
    Ghost(s): Ghost<SlotModel>,
) -> (r: Option<&'a CommandSpec>)
    requires
        commands_view(commands@) == s.commands,
        forall|i: int, j: int|
            0 <= i < j < s.commands.len() ==> s.commands[i].name != s.commands[j].name,
    ensures
        match r {
            Some(c) => command_exists(s, name@) && c@ == command_at(s, name@),
            None => !command_exists(s, name@),
        },
{
    let mut i: usize = 0;
    while i < commands.len()
        invariant
            i <= commands@.len(),
            commands_view(commands@) == s.commands,
            forall|p: int, q: int|
                0 <= p < q < s.commands.len() ==> s.commands[p].name != s.commands[q].name,
            forall|j: int| 0 <= j < i ==> commands@[j]@.name != name@,
        decreases commands@.len() - i,
    {
        let c = &commands[i];
        if str_eq(c.name.as_str(), name) {
            proof {
                assert(commands_view(commands@)[i as int] == c@);
                assert(command_exists(s, name@));
                let j = command_index(s, name@);
                assert(0 <= j < s.commands.len() && s.commands[j].name == name@);
                assert(s.commands[i as int] == c@);
                assert(j == i as int);
            }
            return Some(c);
        }
        i = i + 1;
    }
    proof {
        if command_exists(s, name@) {
            let j = command_index(s, name@);
            assert(0 <= j < s.commands.len() && s.commands[j].name == name@);
            assert(commands_view(commands@)[j] == commands@[j]@);
        }
    }
    None
}

/// Finds the variable named `name` in a slot's interface.
fn find_variable<'a>(
    variables: &'a Vec<VariableSpec>,
    name: &str,
    Ghost(s): Ghost<SlotModel>,
) -> (r: Option<&'a VariableSpec>)
    requires
        variables_view(variables@) == s.variables,
        forall|i: int, j: int|
            0 <= i < j < s.variables.len() ==> s.variables[i].name != s.variables[j].name,
    ensures
        match r {
            Some(v) => variable_exists(s, name@) && v@ == variable_at(s, name@),
            None => !variable_exists(s, name@),
        },
{
    let mut i: usize = 0;
    while i < variables.len()
        invariant
            i <= variables@.len(),
            variables_view(variables@) == s.variables,
            forall|p: int, q: int|
                0 <= p < q < s.variables.len() ==> s.variables[p].name != s.variables[q].name,
            forall|j: int| 0 <= j < i ==> variables@[j]@.name != name@,
        decreases variables@.len() - i,
    {
        let v = &variables[i];
        if str_eq(v.name.as_str(), name) {
            proof {
                assert(variables_view(variables@)[i as int] == v@);
                assert(variable_exists(s, name@));
                let j = variable_index(s, name@);
                assert(0 <= j < s.variables.len() && s.variables[j].name == name@);
                assert(s.variables[i as int] == v@);
                assert(j == i as int);
            }
            return Some(v);
        }
        i = i + 1;
    }
    proof {
        if variable_exists(s, name@) {
            let j = variable_index(s, name@);
            assert(0 <= j < s.variables.len() && s.variables[j].name == name@);
            assert(variables_view(variables@)[j] == variables@[j]@);
        }
    }
    None
}

/// Identifies the command a resolved (slot, name) pair can stand for: on
/// the main slot one of the four key-value-store commands, on the foobar
/// slot the example command.
proof fn lemma_command_identity(slot_id: Seq<char>, name: Seq<char>)
    requires
        slot_exists(module_table(), SlotRole::Provides, slot_id),
        command_exists(slot_at(module_table(), SlotRole::Provides, slot_id), name),
    ensures
        ({
            let s = slot_at(module_table(), SlotRole::Provides, slot_id);
            let c = command_at(s, name);
            &&& (s.tag == SlotTag::Main || s.tag == SlotTag::Foobar)
            &&& (s.tag == SlotTag::Main ==> c == kvs_commands()[0] || c == kvs_commands()[1]
                || c == kvs_commands()[2] || c == kvs_commands()[3])
            &&& (s.tag == SlotTag::Foobar ==> c == example_commands()[0])
        }),
{
    let t = module_table();
    let j = slot_index(t, SlotRole::Provides, slot_id);
    assert(0 <= j < t.len() && t[j].role == SlotRole::Provides && t[j].name == slot_id);
    assert(j == 0 || j == 1);
    let s = slot_at(t, SlotRole::Provides, slot_id);
    let ci = command_index(s, name);
    assert(0 <= ci < s.commands.len() && s.commands[ci].name == name);
    if j == 0 {
        assert(s.commands == kvs_commands());
        assert(ci == 0 || ci == 1 || ci == 2 || ci == 3);
    } else {
        assert(s.commands == example_commands());
        assert(ci == 0);
    }
}

impl<T: Module> GenericToSpecificModuleProxy<T> {
    #[verifier::type_invariant]
    spec fn wf(self) -> bool {
        slots_view(self.table@) == module_table()
    }

    /// The shell's lifecycle state.
    pub closed spec fn state(&self) -> ShellState {
        self.state
    }

    /// Wires `module` behind the slot table and hands the shell back,
    /// constructed and ready for the runtime's first call.
    pub fn new(module: T) -> (r: Self)
        ensures
            r.state() == ShellState::Constructed,
    {
        GenericToSpecificModuleProxy {
            module,
            table: build_module_table(),
            state: ShellState::Constructed,
        }
    }

    /// True once the readiness hook has fired and traffic has begun.
    pub fn is_running(&self) -> (r: bool)
        ensures
            r == (self.state() == ShellState::Running),
    {
        matches!(self.state, ShellState::Running)
    }

    /// Fires the module's readiness hook on the first call and moves the
    /// shell to its terminal running state; later calls change nothing.
    pub fn on_ready(&mut self)
        ensures
            final(self).state() == ShellState::Running,
            old(self).state() == ShellState::Running ==> *final(self) == *old(self),
    {
        proof {
            use_type_invariant(&*self);
        }
        match self.state {
            ShellState::Constructed => {
                self.state = ShellState::Running;
                self.module.on_ready();
            },
            ShellState::Running => {},
        }
    }

    /// Routes an inbound command invocation to the typed handler of its
    /// provided slot.
    ///
    /// An id no provided slot carries is an unknown-slot error; a name the
    /// slot's interface does not declare an unknown-command error. Each
    /// declared parameter is then removed from `params` by name in declared
    /// order — absent is a missing-argument error, ill-shaped an
    /// invalid-argument error, each naming the parameter, and undeclared
    /// keys are ignored. Only when every parameter decodes does the handler
    /// run, synchronously on the calling thread; its return value comes
    /// back encoded, with the declared shape, and its own error comes back
    /// unmodified as a domain error.
    pub fn dispatch_command(&self, slot_id: &str, name: &str, params: ParameterMap) -> (r: Result<
        ProtocolValue,
        DispatchError,
    >)
        ensures
            ({
                let t = module_table();
                if !slot_exists(t, SlotRole::Provides, slot_id@) {
                    r matches Err(e) && e@ == DispatchErrorModel::UnknownSlot
                } else {
                    let s = slot_at(t, SlotRole::Provides, slot_id@);
                    if !command_exists(s, name@) {
                        r matches Err(e) && e@ == DispatchErrorModel::UnknownCommand
                    } else {
                        match extract_outcome(command_at(s, name@).params, params@) {
                            Err(em) => r matches Err(e) && e@ == em,
                            Ok(vals) => (r matches Ok(v) ==> shape_matches(
                                command_at(s, name@).ret,
                                v@,
                            )) && (r matches Err(e) ==> e@ is Domain),
                        }
                    }
                }
            }),
    {
        proof {
            use_type_invariant(self);
            lemma_module_table_wf();
        }
        let slot = match find_slot(&self.table, SlotRole::Provides, slot_id) {
            Some(slot) => slot,
            None => {
                return Err(DispatchError::UnknownSlot);
            },
        };
        let ghost s = slot@;
        proof {
            let t = module_table();
            let j = slot_index(t, SlotRole::Provides, slot_id@);
            assert(0 <= j < t.len() && t[j].role == SlotRole::Provides && t[j].name == slot_id@);
        }
        let cmd = match find_command(&slot.iface.commands, name, Ghost(s)) {
            Some(cmd) => cmd,
            None => {
                return Err(DispatchError::UnknownCommand);
            },
        };
        let ghost c = cmd@;
        proof {
            lemma_command_identity(slot_id@, name@);
        }
        let mut args = match extract_args(params, &cmd.params) {
            Ok(args) => args,
            Err(e) => {
                return Err(e);
            },
        };
        let ghost pre_args = args@;
        proof {
            lemma_extract_shapes(c.params, params@);
            lemma_list_view_index(pre_args);
            let vals = extract_outcome(c.params, params@)->Ok_0;
            assert(list_view(pre_args) == vals);
            assert(pre_args.len() == c.params.len());
            assert forall|j: int| 0 <= j < c.params.len() implies shape_matches(
                c.params[j].ty,
                #[trigger] pre_args[j]@,
            ) by {
                assert(list_view(pre_args)[j] == pre_args[j]@);
                assert(shape_matches(c.params[j].ty, vals[j]));
            }
        }
        // In every arm below, the decode of a shape-checked argument cannot
        // fail, and no tag pair outside the table can arrive: those error
        // arms are provably unreachable and never returned.
        match (slot.tag, cmd.tag) {
            (SlotTag::Main, CommandTag::Delete) => {
                let key_v = args.remove(0);
                proof {
                    assert(kvs_commands()[1].tag == CommandTag::Exists);
                    assert(kvs_commands()[2].tag == CommandTag::Load);
                    assert(kvs_commands()[3].tag == CommandTag::Store);
                    assert(c == kvs_commands()[0]);
                    assert(key_v@ == pre_args[0]@);
                    assert(shape_matches(c.params[0].ty, key_v@));
                }
                match decode_text(&key_v) {
                    Ok(key) => match self.module.main().delete(key) {
                        Ok(_) => Ok(encode_unit()),
                        Err(e) => Err(DispatchError::Domain(e)),
                    },
                    Err(_) => Err(DispatchError::UnknownCommand),
                }
            },
            (SlotTag::Main, CommandTag::Exists) => {
                let key_v = args.remove(0);
                proof {
                    assert(kvs_commands()[0].tag == CommandTag::Delete);
                    assert(kvs_commands()[2].tag == CommandTag::Load);
                    assert(kvs_commands()[3].tag == CommandTag::Store);
                    assert(c == kvs_commands()[1]);
                    assert(key_v@ == pre_args[0]@);
                    assert(shape_matches(c.params[0].ty, key_v@));
                }
                match decode_text(&key_v) {
                    Ok(key) => match self.module.main().exists_key(key) {
                        Ok(b) => Ok(encode_bool(b)),
                        Err(e) => Err(DispatchError::Domain(e)),
                    },
                    Err(_) => Err(DispatchError::UnknownCommand),
                }
            },
            (SlotTag::Main, CommandTag::Load) => {
                let key_v = args.remove(0);
                proof {
                    assert(kvs_commands()[0].tag == CommandTag::Delete);
                    assert(kvs_commands()[1].tag == CommandTag::Exists);
                    assert(kvs_commands()[3].tag == CommandTag::Store);
                    assert(c == kvs_commands()[2]);
                    assert(key_v@ == pre_args[0]@);
                    assert(shape_matches(c.params[0].ty, key_v@));
                }
                match decode_text(&key_v) {
                    Ok(key) => match self.module.main().load(key) {
                        Ok(v) => Ok(encode_value(v)),
                        Err(e) => Err(DispatchError::Domain(e)),
                    },
                    Err(_) => Err(DispatchError::UnknownCommand),
                }
            },
            (SlotTag::Main, CommandTag::Store) => {
                let key_v = args.remove(0);
                let value_v = args.remove(0);
                proof {
                    assert(kvs_commands()[0].tag == CommandTag::Delete);
                    assert(kvs_commands()[1].tag == CommandTag::Exists);
                    assert(kvs_commands()[2].tag == CommandTag::Load);
                    assert(c == kvs_commands()[3]);
                    assert(key_v@ == pre_args[0]@);
                    assert(shape_matches(c.params[0].ty, key_v@));
                }
                match decode_text(&key_v) {
                    Ok(key) => match self.module.main().store(key, value_v) {
                        Ok(_) => Ok(encode_unit()),
                        Err(e) => Err(DispatchError::Domain(e)),
                    },
                    Err(_) => Err(DispatchError::UnknownCommand),
                }
            },
            (SlotTag::Foobar, CommandTag::UsesSomething) => {
                let key_v = args.remove(0);
                proof {
                    assert(c == example_commands()[0]);
                    assert(key_v@ == pre_args[0]@);
                    assert(shape_matches(c.params[0].ty, key_v@));
                }
                match decode_text(&key_v) {
                    Ok(key) => match self.module.foobar().uses_something(key) {
                        Ok(b) => Ok(encode_bool(b)),
                        Err(e) => Err(DispatchError::Domain(e)),
                    },
                    Err(_) => Err(DispatchError::UnknownCommand),
                }
            },
            (_, _) => Err(DispatchError::UnknownCommand),
        }
    }

    /// Routes an inbound variable notification to the typed subscriber of
    /// its required slot.
    ///
    /// An id no required slot carries is an unknown-slot error; a name the
    /// slot's interface does not declare is reported as an unknown-variable
    /// error rather than ignored, so a misaddressed notification stays
    /// observable; an ill-shaped payload is an invalid-argument error
    /// naming the variable. Otherwise the subscriber runs for its side
    /// effect and the dispatch succeeds.
    pub fn dispatch_variable(&self, slot_id: &str, name: &str, value: ProtocolValue) -> (r: Result<
        (),
        DispatchError,
    >)
        ensures
            ({
                let t = module_table();
                if !slot_exists(t, SlotRole::Requires, slot_id@) {
                    r matches Err(e) && e@ == DispatchErrorModel::UnknownSlot
                } else {
                    let s = slot_at(t, SlotRole::Requires, slot_id@);
                    if !variable_exists(s, name@) {
                        r matches Err(e) && e@ == DispatchErrorModel::UnknownVariable
                    } else if !shape_matches(variable_at(s, name@).ty, value@) {
                        r matches Err(e) && e@ == DispatchErrorModel::InvalidArgument(name@)
                    } else {
                        r == Ok::<(), DispatchError>(())
                    }
                }
            }),
    {
        proof {
            use_type_invariant(self);
            lemma_module_table_wf();
        }
        let slot = match find_slot(&self.table, SlotRole::Requires, slot_id) {
            Some(slot) => slot,
            None => {
                return Err(DispatchError::UnknownSlot);
            },
        };
        let ghost s = slot@;
        let variable = match find_variable(&slot.iface.variables, name, Ghost(s)) {
            Some(variable) => variable,
            None => {
                return Err(DispatchError::UnknownVariable);
            },
        };
        if !check_shape(variable.ty, &value) {
            return Err(DispatchError::InvalidArgument(name.to_owned()));
        }
        match (slot.tag, variable.tag) {
            (SlotTag::TheirExample, VariableTag::MaxCurrent) => {
                match decode_int(&value) {
                    Ok(payload) => {
                        self.module.their_example().on_max_current(payload);
                        Ok(())
                    },
                    Err(_) => Err(DispatchError::InvalidArgument(name.to_owned())),
                }
            },
            (SlotTag::AnotherExample, VariableTag::MaxCurrent) => {
                match decode_int(&value) {
                    Ok(payload) => {
                        self.module.another_example().on_max_current(payload);
                        Ok(())
                    },
                    Err(_) => Err(DispatchError::InvalidArgument(name.to_owned())),
                }
            },
            (_, _) => {
                // Provably unreachable: the only required slots that
                // declare a variable carry the two example tags above.
                proof {
                    let t = module_table();
                    let j = slot_index(t, SlotRole::Requires, slot_id@);
                    assert(t[j] == s);
                    let vj = variable_index(s, name@);
                    assert(s.variables[vj] == variable@);
                }
                Err(DispatchError::UnknownVariable)
            },
        }
    }
}

} // verus!
