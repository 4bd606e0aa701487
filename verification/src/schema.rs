//! The static schema: interface descriptors with their commands, parameters
//! and variables, and the module's slot table binding each interface to a
//! provided or required slot.
//!
//! The table is fixed at construction; dispatch resolves inbound names
//! against it and nothing else.

use vstd::prelude::*;

use crate::value::ProtocolValue;
use crate::value::ValueModel;

verus! {

/// The declared type of a parameter, payload or return value.
#[derive(Debug, PartialEq, Eq, Clone, Copy, Structural)]
pub enum TypeTag {
    /// The void value: null and nothing else.
    Null,
    /// A boolean.
    Bool,
    /// An integer.
    Int,
    /// A UTF-8 string.
    Text,
    /// Any structured value.
    Any,
}

/// True when a value of shape `m` fits the declared type `t`.
pub open spec fn shape_matches(t: TypeTag, m: ValueModel) -> bool {
    match t {
        TypeTag::Null => m is Null,
        TypeTag::Bool => m is Bool,
        TypeTag::Int => m is Int,
        TypeTag::Text => m is Text,
        TypeTag::Any => true,
    }
}

/// Checks a value against a declared type.
pub fn check_shape(t: TypeTag, v: &ProtocolValue) -> (r: bool)
    ensures
        r == shape_matches(t, v@),
{
    match t {
        TypeTag::Null => matches!(v, ProtocolValue::Null),
        TypeTag::Bool => matches!(v, ProtocolValue::Bool(_)),
        TypeTag::Int => matches!(v, ProtocolValue::Int(_)),
        TypeTag::Text => matches!(v, ProtocolValue::Text(_)),
        TypeTag::Any => true,
    }
}

/// The role a slot binds its interface to.
#[derive(Debug, PartialEq, Eq, Clone, Copy, Structural)]
pub enum SlotRole {
    /// The module implements the interface: inbound commands arrive here.
    Provides,
    /// The module consumes the interface: inbound variables arrive here.
    Requires,
}

/// Which typed handler a dispatched command is bound to.
#[derive(Debug, PartialEq, Eq, Clone, Copy, Structural)]
pub enum CommandTag {
    Delete,
    Exists,
    Load,
    Store,
    UsesSomething,
}

/// Which typed subscriber payload a dispatched variable carries.
#[derive(Debug, PartialEq, Eq, Clone, Copy, Structural)]
pub enum VariableTag {
    MaxCurrent,
}

/// Which wired slot a table entry stands for.
#[derive(Debug, PartialEq, Eq, Clone, Copy, Structural)]
pub enum SlotTag {
    Main,
    Foobar,
    TheirStore,
    TheirExample,
    AnotherExample,
}

/// Model of a declared parameter.
#[verifier::ext_equal]
pub struct ParamModel {
    pub name: Seq<char>,
    pub ty: TypeTag,
}

/// Model of a declared command.
#[verifier::ext_equal]
pub struct CommandModel {
    pub name: Seq<char>,
    pub params: Seq<ParamModel>,
    pub ret: TypeTag,
    pub tag: CommandTag,
}

/// Model of a declared variable.
#[verifier::ext_equal]
pub struct VariableModel {
    pub name: Seq<char>,
    pub ty: TypeTag,
    pub tag: VariableTag,
}

/// Model of a slot binding: a named role with the commands and variables of
/// its interface.
#[verifier::ext_equal]
pub struct SlotModel {
    pub name: Seq<char>,
    pub role: SlotRole,
    pub tag: SlotTag,
    pub commands: Seq<CommandModel>,
    pub variables: Seq<VariableModel>,
}

/// A declared parameter: an ordered, named, typed argument of a command.
#[derive(Debug)]
pub struct ParamSpec {
    pub name: String,
    pub ty: TypeTag,
}

impl View for ParamSpec {
    type V = ParamModel;

    open spec fn view(&self) -> ParamModel {
        ParamModel { name: self.name@, ty: self.ty }
    }
}

/// A declared command with its parameters, return type and handler binding.
#[derive(Debug)]
pub struct CommandSpec {
    pub name: String,
    pub params: Vec<ParamSpec>,
    pub ret: TypeTag,
    pub tag: CommandTag,
}

/// The models of a parameter list, in order.
pub open spec fn params_view(s: Seq<ParamSpec>) -> Seq<ParamModel> {
    Seq::new(s.len(), |i: int| s[i]@)
}

impl View for CommandSpec {
    type V = CommandModel;

    open spec fn view(&self) -> CommandModel {
        CommandModel { name: self.name@, params: params_view(self.params@), ret: self.ret, tag: self.tag }
    }
}

/// A declared variable with its payload type and subscriber binding.
#[derive(Debug)]
pub struct VariableSpec {
    pub name: String,
    pub ty: TypeTag,
    pub tag: VariableTag,
}

impl View for VariableSpec {
    type V = VariableModel;

    open spec fn view(&self) -> VariableModel {
        VariableModel { name: self.name@, ty: self.ty, tag: self.tag }
    }
}

/// The immutable schema of one interface: its commands and its variables.
#[derive(Debug)]
pub struct InterfaceDescriptor {
    pub commands: Vec<CommandSpec>,
    pub variables: Vec<VariableSpec>,
}

/// The models of a command list, in order.
pub open spec fn commands_view(s: Seq<CommandSpec>) -> Seq<CommandModel> {
    Seq::new(s.len(), |i: int| s[i]@)
}

/// The models of a variable list, in order.
pub open spec fn variables_view(s: Seq<VariableSpec>) -> Seq<VariableModel> {
    Seq::new(s.len(), |i: int| s[i]@)
}

/// A named binding of an interface to a role.
#[derive(Debug)]
pub struct SlotEntry {
    pub name: String,
    pub role: SlotRole,
    pub tag: SlotTag,
    pub iface: InterfaceDescriptor,
}

impl View for SlotEntry {
    type V = SlotModel;

    open spec fn view(&self) -> SlotModel {
        SlotModel {
            name: self.name@,
            role: self.role,
            tag: self.tag,
            commands: commands_view(self.iface.commands@),
            variables: variables_view(self.iface.variables@),
        }
    }
}

/// The models of a slot list, in order.
pub open spec fn slots_view(s: Seq<SlotEntry>) -> Seq<SlotModel> {
    Seq::new(s.len(), |i: int| s[i]@)
}

/// True when some slot of role `role` carries the id `name`.
pub open spec fn slot_exists(t: Seq<SlotModel>, role: SlotRole, name: Seq<char>) -> bool {
    exists|i: int| 0 <= i < t.len() && t[i].role == role && t[i].name == name
}

/// Index of a slot of role `role` with id `name`; meaningful only when one
/// exists.
pub open spec fn slot_index(t: Seq<SlotModel>, role: SlotRole, name: Seq<char>) -> int {
    choose|i: int| 0 <= i < t.len() && t[i].role == role && t[i].name == name
}

/// The slot of role `role` with id `name`; meaningful only when one exists.
pub open spec fn slot_at(t: Seq<SlotModel>, role: SlotRole, name: Seq<char>) -> SlotModel {
    t[slot_index(t, role, name)]
}

/// True when the slot's interface declares a command named `name`.
pub open spec fn command_exists(s: SlotModel, name: Seq<char>) -> bool {
    exists|i: int| 0 <= i < s.commands.len() && s.commands[i].name == name
}

/// Index of the command named `name`; meaningful only when one exists.
pub open spec fn command_index(s: SlotModel, name: Seq<char>) -> int {
    choose|i: int| 0 <= i < s.commands.len() && s.commands[i].name == name
}

/// The command named `name`; meaningful only when one exists.
pub open spec fn command_at(s: SlotModel, name: Seq<char>) -> CommandModel {
    s.commands[command_index(s, name)]
}

/// True when the slot's interface declares a variable named `name`.
pub open spec fn variable_exists(s: SlotModel, name: Seq<char>) -> bool {
    exists|i: int| 0 <= i < s.variables.len() && s.variables[i].name == name
}

/// Index of the variable named `name`; meaningful only when one exists.
pub open spec fn variable_index(s: SlotModel, name: Seq<char>) -> int {
    choose|i: int| 0 <= i < s.variables.len() && s.variables[i].name == name
}

/// The variable named `name`; meaningful only when one exists.
pub open spec fn variable_at(s: SlotModel, name: Seq<char>) -> VariableModel {
    s.variables[variable_index(s, name)]
}

/// True when no two declared parameters share a name.
pub open spec fn param_names_unique(decl: Seq<ParamModel>) -> bool {
    forall|i: int, j: int| 0 <= i < j < decl.len() ==> decl[i].name != decl[j].name
}

/// True when the table's slot ids are unique, command and variable names
/// are unique within each interface, and parameter names are unique within
/// each command.
pub open spec fn table_wf(t: Seq<SlotModel>) -> bool {
    &&& forall|i: int, j: int| 0 <= i < j < t.len() ==> t[i].name != t[j].name
    &&& forall|k: int, i: int, j: int|
        0 <= k < t.len() && 0 <= i < j < t[k].commands.len() ==> t[k].commands[i].name
            != t[k].commands[j].name
    &&& forall|k: int, i: int, j: int|
        0 <= k < t.len() && 0 <= i < j < t[k].variables.len() ==> t[k].variables[i].name
            != t[k].variables[j].name
    &&& forall|k: int, i: int|
        0 <= k < t.len() && 0 <= i < t[k].commands.len() ==> param_names_unique(
            #[trigger] t[k].commands[i].params,
        )
}

/// The module's slot table is well formed.
pub proof fn lemma_module_table_wf()
    ensures
        table_wf(module_table()),
{
    reveal_strlit("main");
    reveal_strlit("foobar");
    reveal_strlit("their_store");
    reveal_strlit("their_example");
    reveal_strlit("another_example");
    reveal_strlit("delete");
    reveal_strlit("exists");
    reveal_strlit("load");
    reveal_strlit("store");
    reveal_strlit("uses_something");
    reveal_strlit("max_current");
    reveal_strlit("key");
    reveal_strlit("value");
    let t = module_table();
    assert(t.len() == 5);
    assert forall|i: int, j: int| 0 <= i < j < t.len() implies t[i].name != t[j].name by {
        assert(t[0].name.len() == 4);
        assert(t[1].name.len() == 6);
        assert(t[2].name.len() == 11);
        assert(t[3].name.len() == 13);
        assert(t[4].name.len() == 15);
    }
    assert forall|k: int, i: int, j: int|
        0 <= k < t.len() && 0 <= i < j < t[k].commands.len() implies t[k].commands[i].name
        != t[k].commands[j].name by {
        assert(kvs_commands()[0].name.len() == 6);
        assert(kvs_commands()[1].name.len() == 6);
        assert(kvs_commands()[2].name.len() == 4);
        assert(kvs_commands()[3].name.len() == 5);
        assert(kvs_commands()[0].name[0] == 'd');
        assert(kvs_commands()[1].name[0] == 'e');
    }
    assert forall|k: int, i: int|
        0 <= k < t.len() && 0 <= i < t[k].commands.len() implies param_names_unique(
        #[trigger] t[k].commands[i].params,
    ) by {
        assert(("key"@).len() == 3);
        assert(("value"@).len() == 5);
    }
}

/// The provided slots are exactly main and foobar: a command sent to any
/// other id resolves to no slot.
pub proof fn lemma_provided_slots(name: Seq<char>)
    ensures
        slot_exists(module_table(), SlotRole::Provides, name) <==> (name == "main"@ || name
            == "foobar"@),
{
    let t = module_table();
    if name == "main"@ {
        assert(t[0].role == SlotRole::Provides && t[0].name == name);
        assert(slot_exists(t, SlotRole::Provides, name));
    }
    if name == "foobar"@ {
        assert(t[1].role == SlotRole::Provides && t[1].name == name);
        assert(slot_exists(t, SlotRole::Provides, name));
    }
}

/// The required slots are exactly their_store, their_example and
/// another_example: a variable sent to any other id resolves to no slot.
pub proof fn lemma_required_slots(name: Seq<char>)
    ensures
        slot_exists(module_table(), SlotRole::Requires, name) <==> (name == "their_store"@ || name
            == "their_example"@ || name == "another_example"@),
{
    let t = module_table();
    if name == "their_store"@ {
        assert(t[2].role == SlotRole::Requires && t[2].name == name);
        assert(slot_exists(t, SlotRole::Requires, name));
    }
    if name == "their_example"@ {
        assert(t[3].role == SlotRole::Requires && t[3].name == name);
        assert(slot_exists(t, SlotRole::Requires, name));
    }
    if name == "another_example"@ {
        assert(t[4].role == SlotRole::Requires && t[4].name == name);
        assert(slot_exists(t, SlotRole::Requires, name));
    }
}

/// Model of the key-value-store interface: delete, exists, load and store,
/// each taking the key as a string, store also taking an arbitrary value.
pub open spec fn kvs_commands() -> Seq<CommandModel> {
    seq![
        CommandModel {
            name: "delete"@,
            params: seq![ParamModel { name: "key"@, ty: TypeTag::Text }],
            ret: TypeTag::Null,
            tag: CommandTag::Delete,
        },
        CommandModel {
            name: "exists"@,
            params: seq![ParamModel { name: "key"@, ty: TypeTag::Text }],
            ret: TypeTag::Bool,
            tag: CommandTag::Exists,
        },
        CommandModel {
            name: "load"@,
            params: seq![ParamModel { name: "key"@, ty: TypeTag::Text }],
            ret: TypeTag::Any,
            tag: CommandTag::Load,
        },
        CommandModel {
            name: "store"@,
            params: seq![
                ParamModel { name: "key"@, ty: TypeTag::Text },
                ParamModel { name: "value"@, ty: TypeTag::Any },
            ],
            ret: TypeTag::Null,
            tag: CommandTag::Store,
        },
    ]
}

/// Model of the example interface's commands: uses_something alone.
pub open spec fn example_commands() -> Seq<CommandModel> {
    seq![
        CommandModel {
            name: "uses_something"@,
            params: seq![ParamModel { name: "key"@, ty: TypeTag::Text }],
            ret: TypeTag::Bool,
            tag: CommandTag::UsesSomething,
        },
    ]
}

/// Model of the example interface's variables: max_current alone.
pub open spec fn example_variables() -> Seq<VariableModel> {
    seq![VariableModel { name: "max_current"@, ty: TypeTag::Int, tag: VariableTag::MaxCurrent }]
}

/// Model of the module's slot table: what it provides and what it requires,
/// fixed at construction.
pub open spec fn module_table() -> Seq<SlotModel> {
    seq![
        SlotModel {
            name: "main"@,
            role: SlotRole::Provides,
            tag: SlotTag::Main,
            commands: kvs_commands(),
            variables: Seq::empty(),
        },
        SlotModel {
            name: "foobar"@,
            role: SlotRole::Provides,
            tag: SlotTag::Foobar,
            commands: example_commands(),
            variables: example_variables(),
        },
        SlotModel {
            name: "their_store"@,
            role: SlotRole::Requires,
            tag: SlotTag::TheirStore,
            commands: kvs_commands(),
            variables: Seq::empty(),
        },
        SlotModel {
            name: "their_example"@,
            role: SlotRole::Requires,
            tag: SlotTag::TheirExample,
            commands: example_commands(),
            variables: example_variables(),
        },
        SlotModel {
            name: "another_example"@,
            role: SlotRole::Requires,
            tag: SlotTag::AnotherExample,
            commands: example_commands(),
            variables: example_variables(),
        },
    ]
}

/// The key parameter, shared by every command of both interfaces.
fn key_param() -> (r: ParamSpec)
    ensures
        r@ == (ParamModel { name: "key"@, ty: TypeTag::Text }),
{
    ParamSpec { name: "key".to_owned(), ty: TypeTag::Text }
}

/// Builds the key-value-store interface descriptor.
pub fn kvs_interface() -> (r: InterfaceDescriptor)
    ensures
        commands_view(r.commands@) == kvs_commands(),
        variables_view(r.variables@) == Seq::<VariableModel>::empty(),
{
    let mut commands: Vec<CommandSpec> = Vec::new();
    let mut delete_params: Vec<ParamSpec> = Vec::new();
    delete_params.push(key_param());
    commands.push(
        CommandSpec {
            name: "delete".to_owned(),
            params: delete_params,
            ret: TypeTag::Null,
            tag: CommandTag::Delete,
        },
    );
    let mut exists_params: Vec<ParamSpec> = Vec::new();
    exists_params.push(key_param());
    commands.push(
        CommandSpec {
            name: "exists".to_owned(),
            params: exists_params,
            ret: TypeTag::Bool,
            tag: CommandTag::Exists,
        },
    );
    let mut load_params: Vec<ParamSpec> = Vec::new();
    load_params.push(key_param());
    commands.push(
        CommandSpec {
            name: "load".to_owned(),
            params: load_params,
            ret: TypeTag::Any,
            tag: CommandTag::Load,
        },
    );
    let mut store_params: Vec<ParamSpec> = Vec::new();
    store_params.push(key_param());
    store_params.push(ParamSpec { name: "value".to_owned(), ty: TypeTag::Any });
    commands.push(
        CommandSpec {
            name: "store".to_owned(),
            params: store_params,
            ret: TypeTag::Null,
            tag: CommandTag::Store,
        },
    );
    let r = InterfaceDescriptor { commands, variables: Vec::new() };
    proof {
        assert(params_view(r.commands@[0].params@) =~= kvs_commands()[0].params);
        assert(params_view(r.commands@[1].params@) =~= kvs_commands()[1].params);
        assert(params_view(r.commands@[2].params@) =~= kvs_commands()[2].params);
        assert(params_view(r.commands@[3].params@) =~= kvs_commands()[3].params);
        assert(commands_view(r.commands@) =~~= kvs_commands());
        assert(variables_view(r.variables@) =~= Seq::<VariableModel>::empty());
    }
    r
}

/// Builds the example interface descriptor.
pub fn example_interface() -> (r: InterfaceDescriptor)
    ensures
        commands_view(r.commands@) == example_commands(),
        variables_view(r.variables@) == example_variables(),
{
    let mut commands: Vec<CommandSpec> = Vec::new();
    let mut uses_params: Vec<ParamSpec> = Vec::new();
    uses_params.push(key_param());
    commands.push(
        CommandSpec {
            name: "uses_something".to_owned(),
            params: uses_params,
            ret: TypeTag::Bool,
            tag: CommandTag::UsesSomething,
        },
    );
    let mut variables: Vec<VariableSpec> = Vec::new();
    variables.push(
        VariableSpec {
            name: "max_current".to_owned(),
            ty: TypeTag::Int,
            tag: VariableTag::MaxCurrent,
        },
    );
    let r = InterfaceDescriptor { commands, variables };
    proof {
        assert(params_view(r.commands@[0].params@) =~= example_commands()[0].params);
        assert(commands_view(r.commands@) =~~= example_commands());
        assert(variables_view(r.variables@) =~= example_variables());
    }
    r
}

/// Builds the module's slot table; its model is exactly [`module_table`].
pub fn build_module_table() -> (r: Vec<SlotEntry>)
    ensures
        slots_view(r@) == module_table(),
{
    let mut slots: Vec<SlotEntry> = Vec::new();
    slots.push(
        SlotEntry {
            name: "main".to_owned(),
            role: SlotRole::Provides,
            tag: SlotTag::Main,
            iface: kvs_interface(),
        },
    );
    slots.push(
        SlotEntry {
            name: "foobar".to_owned(),
            role: SlotRole::Provides,
            tag: SlotTag::Foobar,
            iface: example_interface(),
        },
    );
    slots.push(
        SlotEntry {
            name: "their_store".to_owned(),
            role: SlotRole::Requires,
            tag: SlotTag::TheirStore,
            iface: kvs_interface(),
        },
    );
    slots.push(
        SlotEntry {
            name: "their_example".to_owned(),
            role: SlotRole::Requires,
            tag: SlotTag::TheirExample,
            iface: example_interface(),
        },
    );
    slots.push(
        SlotEntry {
            name: "another_example".to_owned(),
            role: SlotRole::Requires,
            tag: SlotTag::AnotherExample,
            iface: example_interface(),
        },
    );
    proof {
        assert(slots@[0]@ =~~= module_table()[0]);
        assert(slots@[1]@ =~~= module_table()[1]);
        assert(slots@[2]@ =~~= module_table()[2]);
        assert(slots@[3]@ =~~= module_table()[3]);
        assert(slots@[4]@ =~~= module_table()[4]);
        assert(slots_view(slots@) =~~= module_table());
    }
    slots
}

} // verus!
