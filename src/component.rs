//! The decisions of the component layer.
//!
//! Every operation of a component is decided here from its metadata alone:
//! a name is checked against the declared signals, and the operation either
//! fails with a typed error, with no engine call, or yields the one engine
//! call that carries it out, with the caller's values passed through as
//! they are. The host performs that call on the engine it owns and hands the
//! engine's answer back as the operation's result. Values are generic: the
//! layer never looks at them.
//!
//! A component is used by one writer at a time: nothing here locks, and a
//! host that shares a component between threads serialises its calls.
use vstd::prelude::*;
use crate::error::ComponentError;
use crate::metadata::{
    lemma_find_type_absent, lemma_find_type_at, names_of, ComponentMetadata, IOType,
    MetadataView,
};

verus! {

/// One operation on the runtime engine, to be performed by the host.
#[derive(Clone, Debug, PartialEq)]
pub enum EngineCall<V> {
    /// Return the engine to its initial state.
    Reset,
    /// Write a floating-point variable.
    SetReal(String, V),
    /// Write a boolean variable.
    SetBool(String, bool),
    /// Read a floating-point variable.
    GetReal(String),
    /// Advance the engine's time by the given duration.
    Step(V),
}

/// The verdict on accessing a signal through one accessor family.
#[derive(Clone, Copy, Debug, PartialEq, Eq, Structural)]
pub enum Access {
    /// No signal of that name is declared.
    Unknown,
    /// The signal is declared with the other family.
    Mismatch,
    /// The signal is declared with this family.
    Granted,
}

/// The verdict for a signal declared as `declared`, accessed as `family`.
pub open spec fn access(declared: Option<IOType>, family: IOType) -> Access {
    match declared {
        None => Access::Unknown,
        Some(t) => if t == family {
            Access::Granted
        } else {
            Access::Mismatch
        },
    }
}

/// `r` is the outcome that the verdict `a` on the signal `name` calls for:
/// the matching error naming the signal, or success.
pub open spec fn answers<T>(r: Result<T, ComponentError>, a: Access, name: Seq<char>) -> bool {
    match a {
        Access::Unknown => r matches Err(ComponentError::UnknownVariable(n)) && n@ == name,
        Access::Mismatch => r matches Err(ComponentError::TypeMismatch(n)) && n@ == name,
        Access::Granted => r is Ok,
    }
}

fn check_access(declared: Option<IOType>, family: IOType, name: &str) -> (r: Result<
    (),
    ComponentError,
>)
    ensures
        answers(r, access(declared, family), name@),
{
    match declared {
        None => Err(ComponentError::UnknownVariable(name.to_owned())),
        Some(t) => if t == family {
            Ok(())
        } else {
            Err(ComponentError::TypeMismatch(name.to_owned()))
        },
    }
}

/// Decides a write of a floating-point input.
pub fn plan_set_input<V>(meta: &ComponentMetadata, name: &str, value: V) -> (r: Result<
    EngineCall<V>,
    ComponentError,
>)
    ensures
        answers(r, access(meta@.write_type(name@), IOType::Real), name@),
        r is Ok ==> (r matches Ok(EngineCall::SetReal(n, v)) && n@ == name@ && v == value),
{
    match check_access(meta.write_type(name), IOType::Real, name) {
        Ok(()) => Ok(EngineCall::SetReal(name.to_owned(), value)),
        Err(e) => Err(e),
    }
}

/// Decides a write of a boolean input.
pub fn plan_set_bool_input<V>(meta: &ComponentMetadata, name: &str, value: bool) -> (r: Result<
    EngineCall<V>,
    ComponentError,
>)
    ensures
        answers(r, access(meta@.write_type(name@), IOType::Boolean), name@),
        r is Ok ==> (r matches Ok(EngineCall::SetBool(n, v)) && n@ == name@ && v == value),
{
    match check_access(meta.write_type(name), IOType::Boolean, name) {
        Ok(()) => Ok(EngineCall::SetBool(name.to_owned(), value)),
        Err(e) => Err(e),
    }
}

/// Decides a read of a floating-point output.
pub fn plan_get_output<V>(meta: &ComponentMetadata, name: &str) -> (r: Result<
    EngineCall<V>,
    ComponentError,
>)
    ensures
        answers(r, access(meta@.read_type(name@), IOType::Real), name@),
        r is Ok ==> (r matches Ok(EngineCall::GetReal(n)) && n@ == name@),
{
    match check_access(meta.read_type(name), IOType::Real, name) {
        Ok(()) => Ok(EngineCall::GetReal(name.to_owned())),
        Err(e) => Err(e),
    }
}

/// What a reader sees of a list of named values.
pub open spec fn pairs_view<V>(s: Seq<(String, V)>) -> Seq<(Seq<char>, V)> {
    s.map_values(|p: (String, V)| (p.0@, p.1))
}

/// The best-effort snapshot of outputs: `reads[i]` is the engine's answer for
/// the output named `names[i]`; each success is kept, in order, under its
/// name, and each failure is left out.
pub open spec fn collected<V>(names: Seq<Seq<char>>, reads: Seq<Result<V, ComponentError>>) -> Seq<
    (Seq<char>, V),
>
    decreases reads.len(),
{
    if names.len() == 0 || reads.len() == 0 {
        seq![]
    } else {
        let rest = collected(names.drop_last(), reads.drop_last());
        match reads.last() {
            Ok(v) => rest.push((names.last(), v)),
            Err(_) => rest,
        }
    }
}

/// Collects the engine's answers for the declared outputs, `reads[i]` being
/// the answer for the `i`-th output. Failed reads are left out; this never
/// fails.
pub fn collect_outputs<V: Copy>(meta: &ComponentMetadata, reads: &Vec<
    Result<V, ComponentError>,
>) -> (r: Vec<(String, V)>)
    requires
        reads@.len() == meta@.outputs.len(),
    ensures
        pairs_view(r@) == collected(names_of(meta@.outputs), reads@),
{
    let ghost names = names_of(meta@.outputs);
    let mut r: Vec<(String, V)> = Vec::new();
    let mut i: usize = 0;
    while i < reads.len()
        invariant
            0 <= i <= reads.len(),
            reads@.len() == meta@.outputs.len(),
            names == names_of(meta@.outputs),
            pairs_view(r@) == collected(names.take(i as int), reads@.take(i as int)),
        decreases reads.len() - i,
    {
        assert(names.take(i + 1).drop_last() =~= names.take(i as int));
        assert(reads@.take(i + 1).drop_last() =~= reads@.take(i as int));
        match &reads[i] {
            Ok(v) => {
                r.push((meta.outputs[i].name.clone(), *v));
                assert(pairs_view(r@) =~= collected(names.take(i as int), reads@.take(i as int)).push(
                    (names[i as int], *v),
                ));
            },
            Err(_) => {},
        }
        i = i + 1;
    }
    assert(names.take(i as int) =~= names);
    assert(reads@.take(i as int) =~= reads@);
    r
}

/// The interface that every simulation component offers its host, whatever
/// its physical domain. A domain supplies its category tag and its
/// self-description; every other operation is decided from the latter.
///
/// Each operation names the engine call that carries it out, or fails with a
/// typed error and names none. `get_all_outputs` is the one exception to
/// surfacing every error: a failed read of one output is left out of the
/// snapshot so that it does not block the others.
pub trait SimulationComponent {
    /// The category tag that `component_type` returns.
    spec fn spec_component_type(&self) -> Seq<char>;

    /// The self-description that `metadata` returns.
    spec fn spec_metadata(&self) -> MetadataView;

    /// A stable category tag; it never fails.
    fn component_type(&self) -> (r: String)
        ensures
            r@ == self.spec_component_type(),
    ;

    /// The static self-description; it never fails.
    fn metadata(&self) -> (r: ComponentMetadata)
        ensures
            r@ == self.spec_metadata(),
            r@.wf(),
    ;

    /// Puts the engine in its initial state, before the first step; the same
    /// call as `reset`.
    fn initialize<V>(&self) -> (r: EngineCall<V>)
        ensures
            r is Reset,
    {
        EngineCall::Reset
    }

    /// Returns the engine to its initial state.
    fn reset<V>(&self) -> (r: EngineCall<V>)
        ensures
            r is Reset,
    {
        EngineCall::Reset
    }

    /// Advances the engine's time by `dt`, which the engine judges.
    fn step<V>(&self, dt: V) -> (r: EngineCall<V>)
        ensures
            r matches EngineCall::Step(d) && d == dt,
    {
        EngineCall::Step(dt)
    }

    /// Writes a floating-point signal, once `name` is found declared with
    /// that type.
    fn set_input<V>(&self, name: &str, value: V) -> (r: Result<EngineCall<V>, ComponentError>)
        ensures
            answers(r, access(self.spec_metadata().write_type(name@), IOType::Real), name@),
            r is Ok ==> (r matches Ok(EngineCall::SetReal(n, v)) && n@ == name@ && v == value),
    {
        plan_set_input(&self.metadata(), name, value)
    }

    /// Writes a boolean signal, once `name` is found declared with that type.
    fn set_bool_input<V>(&self, name: &str, value: bool) -> (r: Result<
        EngineCall<V>,
        ComponentError,
    >)
        ensures
            answers(r, access(self.spec_metadata().write_type(name@), IOType::Boolean), name@),
            r is Ok ==> (r matches Ok(EngineCall::SetBool(n, v)) && n@ == name@ && v == value),
    {
        plan_set_bool_input(&self.metadata(), name, value)
    }

    /// Reads a floating-point signal, once `name` is found declared with that
    /// type.
    fn get_output<V>(&self, name: &str) -> (r: Result<EngineCall<V>, ComponentError>)
        ensures
            answers(r, access(self.spec_metadata().read_type(name@), IOType::Real), name@),
            r is Ok ==> (r matches Ok(EngineCall::GetReal(n)) && n@ == name@),
    {
        plan_get_output(&self.metadata(), name)
    }

    /// The names of the outputs that a snapshot reads, in order.
    fn output_names(&self) -> (r: Vec<String>)
        ensures
            r@.map_values(|s: String| s@) == names_of(self.spec_metadata().outputs),
    {
        self.metadata().output_names()
    }

    /// The best-effort snapshot of all outputs: `reads[i]` is the engine's
    /// answer for the `i`-th name of `output_names`. Each failed read is left
    /// out; this never fails.
    fn get_all_outputs<V: Copy>(&self, reads: &Vec<Result<V, ComponentError>>) -> (r: Vec<
        (String, V),
    >)
        requires
            reads@.len() == self.spec_metadata().outputs.len(),
        ensures
            pairs_view(r@) == collected(names_of(self.spec_metadata().outputs), reads@),
    {
        collect_outputs(&self.metadata(), reads)
    }
}

/// Every key of a best-effort snapshot is the name of a declared output.
pub proof fn lemma_collected_keys_declared<V>(
    names: Seq<Seq<char>>,
    reads: Seq<Result<V, ComponentError>>,
)
    requires
        names.len() == reads.len(),
    ensures
        forall|k: int|
            0 <= k < collected(names, reads).len() ==> names.contains(
                #[trigger] collected(names, reads)[k].0,
            ),
    decreases reads.len(),
{
    if names.len() > 0 {
        let (n0, r0) = (names.drop_last(), reads.drop_last());
        lemma_collected_keys_declared(n0, r0);
        let rest = collected(n0, r0);
        assert forall|k: int| 0 <= k < collected(names, reads).len() implies names.contains(
            #[trigger] collected(names, reads)[k].0,
        ) by {
            if k < rest.len() {
                assert(collected(names, reads)[k] == rest[k]);
                let j = choose|j: int| 0 <= j < n0.len() && n0[j] == rest[k].0;
                assert(names[j] == n0[j]);
            } else {
                assert(names[names.len() - 1] == names.last());
            }
        }
    }
}

/// In well-formed metadata, every output declared as Real can be read as
/// Real: reading it is granted and forwarded to the engine.
pub proof fn lemma_declared_outputs_readable(meta: MetadataView, i: int)
    requires
        meta.wf(),
        0 <= i < meta.outputs.len(),
        meta.outputs[i].io_type == IOType::Real,
    ensures
        access(meta.read_type(meta.outputs[i].name), IOType::Real) == Access::Granted,
{
    lemma_find_type_at(meta.outputs, i);
}

/// In well-formed metadata, writing a boolean to a name declared as a Real
/// output, and not declared as an input, is a type mismatch.
pub proof fn lemma_bool_write_to_real_output_mismatch(meta: MetadataView, i: int)
    requires
        meta.wf(),
        0 <= i < meta.outputs.len(),
        meta.outputs[i].io_type == IOType::Real,
        !names_of(meta.inputs).contains(meta.outputs[i].name),
    ensures
        access(meta.write_type(meta.outputs[i].name), IOType::Boolean) == Access::Mismatch,
{
    let name = meta.outputs[i].name;
    assert forall|j: int| 0 <= j < meta.inputs.len() implies meta.inputs[j].name != name by {
        assert(names_of(meta.inputs)[j] == meta.inputs[j].name);
    }
    lemma_find_type_absent(meta.inputs, name);
    lemma_find_type_at(meta.outputs, i);
}

/// A name declared neither as an input nor as an output is unknown to every
/// read and write, whatever the accessor family: the operation fails with
/// no engine call, so the engine's state is left as it was.
pub proof fn lemma_undeclared_name_unknown(meta: MetadataView, name: Seq<char>, family: IOType)
    requires
        !names_of(meta.inputs).contains(name),
        !names_of(meta.outputs).contains(name),
    ensures
        access(meta.write_type(name), family) == Access::Unknown,
        access(meta.read_type(name), family) == Access::Unknown,
{
    assert forall|j: int| 0 <= j < meta.inputs.len() implies meta.inputs[j].name != name by {
        assert(names_of(meta.inputs)[j] == meta.inputs[j].name);
    }
    assert forall|j: int| 0 <= j < meta.outputs.len() implies meta.outputs[j].name != name by {
        assert(names_of(meta.outputs)[j] == meta.outputs[j].name);
    }
    lemma_find_type_absent(meta.inputs, name);
    lemma_find_type_absent(meta.outputs, name);
}

} // verus!
