//! What one thread does to link a patch into its own function table.

use vstd::prelude::*;
use crate::text::same_text;

verus! {

/// Where an import of a patch comes from.
#[derive(Debug, Clone, Copy, PartialEq, Eq, Structural)]
pub enum EnvImport {
    /// The export of the same name of the running instance.
    Export,
    /// A new immutable global that holds this number.
    Global(u64),
}

/// The index of the first property called `name`; the number of properties if there is none.
pub open spec fn property_index(object: Seq<(Seq<char>, EnvImport)>, name: Seq<char>) -> int
    decreases object.len(),
{
    if object.len() == 0 || object[0].0 == name {
        0
    } else {
        1 + property_index(object.skip(1), name)
    }
}

/// What the property called `name` is.
pub open spec fn property(object: Seq<(Seq<char>, EnvImport)>, name: Seq<char>) -> Option<
    EnvImport,
> {
    let i = property_index(object, name);
    if i < object.len() {
        Some(object[i].1)
    } else {
        None
    }
}

/// The object after its property `name` was set to `value`: a property that is there keeps its
/// place, a new one comes last.
pub open spec fn with_property(
    object: Seq<(Seq<char>, EnvImport)>,
    name: Seq<char>,
    value: EnvImport,
) -> Seq<(Seq<char>, EnvImport)> {
    let i = property_index(object, name);
    if i < object.len() {
        object.update(i, (name, value))
    } else {
        object.push((name, value))
    }
}

/// The object with every export of the running instance copied over, in order.
pub open spec fn env_of_exports(names: Seq<Seq<char>>) -> Seq<(Seq<char>, EnvImport)>
    decreases names.len(),
{
    if names.len() == 0 {
        Seq::empty()
    } else {
        with_property(env_of_exports(names.drop_last()), names.last(), EnvImport::Export)
    }
}

/// The `env` object that a patch is instantiated with.
pub open spec fn env_of(names: Seq<Seq<char>>, table_base: u64, memory_base: u64) -> Seq<
    (Seq<char>, EnvImport),
> {
    with_property(
        with_property(env_of_exports(names), "__table_base"@, EnvImport::Global(table_base)),
        "__memory_base"@,
        EnvImport::Global(memory_base),
    )
}

/// The texts of a list of strings.
pub open spec fn texts(strings: Seq<String>) -> Seq<Seq<char>> {
    strings.map_values(|s: String| s@)
}

/// The properties that a list of names and imports spells.
pub open spec fn properties(env: Seq<(String, EnvImport)>) -> Seq<(Seq<char>, EnvImport)> {
    env.map_values(|p: (String, EnvImport)| (p.0@, p.1))
}

/// The steps to link a patch in one thread, in the order of the fields.
pub struct LinkPlan {
    /// How many entries the function table has to grow by.
    pub table_growth: u32,
    /// The properties of the `env` object that the patch is instantiated with.
    pub env: Vec<(String, EnvImport)>,
    /// The functions of the new instance to call, in order.
    pub calls: Vec<String>,
}

impl LinkPlan {
    /// The plan for a patch that needs `ifunc_count` table entries, in an instance with the
    /// exports `names`.
    pub open spec fn links(
        &self,
        ifunc_count: u64,
        names: Seq<Seq<char>>,
        table_base: u64,
        memory_base: u64,
    ) -> bool {
        &&& self.table_growth == ifunc_count as u32
        &&& properties(self.env@) == env_of(names, table_base, memory_base)
        &&& texts(self.calls@) == seq![
            "__wasm_apply_data_relocs"@,
            "__wasm_apply_global_relocs"@,
            "__wasm_call_ctors"@,
        ]
    }
}

proof fn lemma_property_index(object: Seq<(Seq<char>, EnvImport)>, name: Seq<char>)
    ensures
        0 <= property_index(object, name) <= object.len(),
        property_index(object, name) < object.len() ==> object[property_index(object, name)].0
            == name,
        forall|k: int|
            0 <= k < property_index(object, name) ==> (#[trigger] object[k]).0 != name,
    decreases object.len(),
{
    if object.len() != 0 && object[0].0 != name {
        lemma_property_index(object.skip(1), name);
        assert forall|k: int| 0 <= k < property_index(object, name) implies (
        #[trigger] object[k]).0 != name by {
            if k > 0 {
                assert(object.skip(1)[k - 1] == object[k]);
            }
        }
    }
}

fn set_property(object: &mut Vec<(String, EnvImport)>, name: &str, value: EnvImport)
    ensures
        properties(final(object)@) == with_property(properties(old(object)@), name@, value),
{
    let ghost before = properties(object@);
    proof {
        lemma_property_index(before, name@);
    }
    let mut i: usize = 0;
    while i < object.len()
        invariant
            *object == *old(object),
            before == properties(object@),
            i <= object@.len(),
            i <= property_index(before, name@) <= before.len(),
            property_index(before, name@) < before.len() ==> before[property_index(
                before,
                name@,
            )].0 == name@,
            forall|k: int|
                0 <= k < property_index(before, name@) ==> (#[trigger] before[k]).0 != name@,
        decreases object@.len() - i,
    {
        assert(before[i as int].0 == object@[i as int].0@);
        if same_text(object[i].0.as_str(), name) {
            object.set(i, (name.to_owned(), value));
            assert(properties(object@) =~= with_property(before, name@, value));
            return;
        }
        i = i + 1;
    }
    object.push((name.to_owned(), value));
    assert(properties(object@) =~= with_property(before, name@, value));
}

/// Plans how a thread whose instance exports `names` links a patch.
pub fn plan_link(
    ifunc_count: u64,
    names: &Vec<String>,
    table_base: u64,
    memory_base: u64,
) -> (plan: LinkPlan)
    ensures
        plan.links(ifunc_count, texts(names@), table_base, memory_base),
        ifunc_count <= u32::MAX ==> plan.table_growth == ifunc_count,
{
    let mut env: Vec<(String, EnvImport)> = Vec::new();
    let mut i: usize = 0;
    assert(properties(env@) =~= env_of_exports(texts(names@).take(0)));
    while i < names.len()
        invariant
            i <= names@.len(),
            properties(env@) == env_of_exports(texts(names@).take(i as int)),
        decreases names@.len() - i,
    {
        let ghost done = texts(names@).take(i + 1);
        assert(done.drop_last() =~= texts(names@).take(i as int));
        set_property(&mut env, names[i].as_str(), EnvImport::Export);
        i = i + 1;
    }
    assert(texts(names@).take(i as int) =~= texts(names@));
    set_property(&mut env, "__table_base", EnvImport::Global(table_base));
    set_property(&mut env, "__memory_base", EnvImport::Global(memory_base));
    let mut calls: Vec<String> = Vec::new();
    calls.push("__wasm_apply_data_relocs".to_owned());
    calls.push("__wasm_apply_global_relocs".to_owned());
    calls.push("__wasm_call_ctors".to_owned());
    assert(texts(calls@) =~= seq![
        "__wasm_apply_data_relocs"@,
        "__wasm_apply_global_relocs"@,
        "__wasm_call_ctors"@,
    ]);
    LinkPlan { table_growth: ifunc_count as u32, env, calls }
}

/// No name occurs twice.
pub open spec fn distinct_names(object: Seq<(Seq<char>, EnvImport)>) -> bool {
    forall|i: int, j: int|
        0 <= i < j < object.len() ==> (#[trigger] object[i]).0 != (#[trigger] object[j]).0
}

/// Setting a property changes that property alone.
pub proof fn law_set_then_get(
    object: Seq<(Seq<char>, EnvImport)>,
    name: Seq<char>,
    value: EnvImport,
    other: Seq<char>,
)
    ensures
        property(with_property(object, name, value), name) == Some(value),
        other != name ==> property(with_property(object, name, value), other) == property(
            object,
            other,
        ),
        distinct_names(object) ==> distinct_names(with_property(object, name, value)),
{
    let after = with_property(object, name, value);
    lemma_property_index(object, name);
    lemma_property_index(object, other);
    lemma_property_index(after, name);
    lemma_property_index(after, other);
    let at = property_index(object, name);
    assert(after[at] == (name, value));
    if other != name {
        let before_other = property_index(object, other);
        let after_other = property_index(after, other);
        if before_other < object.len() {
            assert(after[before_other] == object[before_other]);
        }
        if after_other < after.len() {
            assert(after[after_other] == object[after_other]);
        }
    }
}

proof fn lemma_exports_in_env(names: Seq<Seq<char>>, name: Seq<char>)
    ensures
        property(env_of_exports(names), name) == if names.contains(name) {
            Some(EnvImport::Export)
        } else {
            None
        },
        distinct_names(env_of_exports(names)),
    decreases names.len(),
{
    if names.len() != 0 {
        let earlier = names.drop_last();
        lemma_exports_in_env(earlier, name);
        law_set_then_get(env_of_exports(earlier), names.last(), EnvImport::Export, name);
        if name == names.last() {
            assert(names[names.len() - 1] == name);
        } else if names.contains(name) {
            let i = choose|i: int| 0 <= i < names.len() && names[i] == name;
            assert(earlier[i] == name);
        } else if earlier.contains(name) {
            let i = choose|i: int| 0 <= i < earlier.len() && earlier[i] == name;
            assert(names[i] == name);
        }
    }
}

/// A patch finds the two bases under their names and every other export under its own, and
/// nothing else; no name occurs twice, not even where the running instance exports a base itself.
pub proof fn law_env_names(
    names: Seq<Seq<char>>,
    table_base: u64,
    memory_base: u64,
    name: Seq<char>,
)
    ensures
        property(env_of(names, table_base, memory_base), name) == if name == "__memory_base"@ {
            Some(EnvImport::Global(memory_base))
        } else if name == "__table_base"@ {
            Some(EnvImport::Global(table_base))
        } else if names.contains(name) {
            Some(EnvImport::Export)
        } else {
            None
        },
        distinct_names(env_of(names, table_base, memory_base)),
{
    let exports = env_of_exports(names);
    let table = EnvImport::Global(table_base);
    let memory = EnvImport::Global(memory_base);
    lemma_exports_in_env(names, name);
    law_set_then_get(exports, "__table_base"@, table, name);
    law_set_then_get(
        with_property(exports, "__table_base"@, table),
        "__memory_base"@,
        memory,
        name,
    );
}

/// A property is what stands beside the first occurrence of its name; without one there is none.
pub proof fn law_property_stands_beside_its_name(
    object: Seq<(Seq<char>, EnvImport)>,
    name: Seq<char>,
    i: int,
)
    requires
        0 <= i < object.len(),
        object[i].0 == name,
        distinct_names(object),
    ensures
        property(object, name) == Some(object[i].1),
{
    lemma_property_index(object, name);
    let at = property_index(object, name);
    if at < i {
        assert(object[at].0 != object[i].0);
    } else if i < at {
        assert(object[i].0 != name);
    }
}

proof fn lemma_property_is_there(object: Seq<(Seq<char>, EnvImport)>, name: Seq<char>)
    ensures
        property(object, name) is Some <==> exists|i: int|
            0 <= i < object.len() && (#[trigger] object[i]).0 == name,
{
    lemma_property_index(object, name);
    if property(object, name) is Some {
        assert(object[property_index(object, name)].0 == name);
    }
}

/// What every link plan does. The table grows by the number of functions of the patch, as far as
/// that has 32 bits, so that there is room for all of them from the table base on. Every import has
/// one source: the bases are new globals with the given numbers, all else comes from the running
/// instance. A name is there exactly if it is a base or an export. The new instance's functions
/// are called in the order of relocating data, relocating globals and constructing.
pub proof fn law_what_a_link_plan_does(
    plan: LinkPlan,
    ifunc_count: u64,
    names: Seq<Seq<char>>,
    table_base: u64,
    memory_base: u64,
    name: Seq<char>,
)
    requires
        plan.links(ifunc_count, names, table_base, memory_base),
    ensures
        plan.table_growth == ifunc_count % 0x1_0000_0000,
        ifunc_count <= u32::MAX ==> plan.table_growth == ifunc_count,
        forall|i: int, j: int|
            0 <= i < j < plan.env@.len() ==> (#[trigger] plan.env@[i]).0@ != (
            #[trigger] plan.env@[j]).0@,
        forall|i: int|
            0 <= i < plan.env@.len() ==> (#[trigger] plan.env@[i]).1 == if plan.env@[i].0@
                == "__memory_base"@ {
                EnvImport::Global(memory_base)
            } else if plan.env@[i].0@ == "__table_base"@ {
                EnvImport::Global(table_base)
            } else {
                EnvImport::Export
            },
        (exists|i: int| 0 <= i < plan.env@.len() && (#[trigger] plan.env@[i]).0@ == name) <==> (name
            == "__memory_base"@ || name == "__table_base"@ || names.contains(name)),
        plan.calls@.len() == 3,
        plan.calls@[0]@ == "__wasm_apply_data_relocs"@,
        plan.calls@[1]@ == "__wasm_apply_global_relocs"@,
        plan.calls@[2]@ == "__wasm_call_ctors"@,
{
    assert(ifunc_count as u32 == ifunc_count % 0x1_0000_0000) by (bit_vector);
    let env = env_of(names, table_base, memory_base);
    let listed = properties(plan.env@);
    assert(listed == env);
    assert(listed.len() == plan.env@.len());
    law_env_names(names, table_base, memory_base, name);
    lemma_property_is_there(env, name);
    assert forall|i: int, j: int| 0 <= i < j < plan.env@.len() implies (
    #[trigger] plan.env@[i]).0@ != (#[trigger] plan.env@[j]).0@ by {
        assert(listed[i].0 != listed[j].0);
    }
    assert forall|i: int| 0 <= i < plan.env@.len() implies (#[trigger] plan.env@[i]).1 == (
    if plan.env@[i].0@ == "__memory_base"@ {
        EnvImport::Global(memory_base)
    } else if plan.env@[i].0@ == "__table_base"@ {
        EnvImport::Global(table_base)
    } else {
        EnvImport::Export
    }) by {
        assert(listed[i] == (plan.env@[i].0@, plan.env@[i].1));
        law_env_names(names, table_base, memory_base, listed[i].0);
        law_property_stands_beside_its_name(env, listed[i].0, i);
    }
    if exists|i: int| 0 <= i < plan.env@.len() && (#[trigger] plan.env@[i]).0@ == name {
        let i = choose|i: int| 0 <= i < plan.env@.len() && (#[trigger] plan.env@[i]).0@ == name;
        assert(env[i].0 == name);
    }
    if exists|i: int| 0 <= i < env.len() && (#[trigger] env[i]).0 == name {
        let i = choose|i: int| 0 <= i < env.len() && (#[trigger] env[i]).0 == name;
        assert(listed[i].0 == plan.env@[i].0@);
    }
    let calls = texts(plan.calls@);
    assert(calls.len() == plan.calls@.len());
    assert(calls[0] == plan.calls@[0]@);
    assert(calls[1] == plan.calls@[1]@);
    assert(calls[2] == plan.calls@[2]@);
}

} // verus!
