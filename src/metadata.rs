//! The static self-description of a component: its signals and their types.
use vstd::prelude::*;

verus! {

/// The accessor family of a signal.
#[derive(Clone, Copy, Debug, PartialEq, Eq, Structural)]
pub enum IOType {
    Real,
    Boolean,
}

/// One named signal. `unit` and `description` are documentation only.
#[derive(Clone, Debug, PartialEq)]
pub struct IOSpec {
    pub name: String,
    pub io_type: IOType,
    pub unit: Option<String>,
    pub description: Option<String>,
}

/// What a reader sees of an `IOSpec`.
pub struct IOSpecView {
    pub name: Seq<char>,
    pub io_type: IOType,
    pub unit: Option<Seq<char>>,
    pub description: Option<Seq<char>>,
}

pub open spec fn text_view(t: Option<String>) -> Option<Seq<char>> {
    match t {
        Some(s) => Some(s@),
        None => None,
    }
}

impl View for IOSpec {
    type V = IOSpecView;

    open spec fn view(&self) -> IOSpecView {
        IOSpecView {
            name: self.name@,
            io_type: self.io_type,
            unit: text_view(self.unit),
            description: text_view(self.description),
        }
    }
}

/// Static self-description of one component instance.
#[derive(Clone, Debug, PartialEq)]
pub struct ComponentMetadata {
    pub name: String,
    pub component_type: String,
    pub inputs: Vec<IOSpec>,
    pub outputs: Vec<IOSpec>,
}

/// What a reader sees of a `ComponentMetadata`.
pub struct MetadataView {
    pub name: Seq<char>,
    pub component_type: Seq<char>,
    pub inputs: Seq<IOSpecView>,
    pub outputs: Seq<IOSpecView>,
}

pub open spec fn specs_view(specs: Seq<IOSpec>) -> Seq<IOSpecView> {
    specs.map_values(|s: IOSpec| s@)
}

impl View for ComponentMetadata {
    type V = MetadataView;

    open spec fn view(&self) -> MetadataView {
        MetadataView {
            name: self.name@,
            component_type: self.component_type@,
            inputs: specs_view(self.inputs@),
            outputs: specs_view(self.outputs@),
        }
    }
}

/// The names of a list of signals, in order.
pub open spec fn names_of(specs: Seq<IOSpecView>) -> Seq<Seq<char>> {
    specs.map_values(|s: IOSpecView| s.name)
}

/// No two signals of the list share a name.
pub open spec fn names_unique(specs: Seq<IOSpecView>) -> bool {
    forall|i: int, j: int|
        0 <= i < specs.len() && 0 <= j < specs.len() && i != j ==> specs[i].name != specs[j].name
}

/// The type of the first signal of the list named `name`, if any.
pub open spec fn find_type(specs: Seq<IOSpecView>, name: Seq<char>) -> Option<IOType>
    decreases specs.len(),
{
    if specs.len() == 0 {
        None
    } else if specs[0].name == name {
        Some(specs[0].io_type)
    } else {
        find_type(specs.drop_first(), name)
    }
}

impl MetadataView {
    /// Input names are unique among themselves, and so are output names.
    pub open spec fn wf(self) -> bool {
        names_unique(self.inputs) && names_unique(self.outputs)
    }

    /// The declared type of `name` as a signal to write: an input first,
    /// else an output.
    pub open spec fn write_type(self, name: Seq<char>) -> Option<IOType> {
        match find_type(self.inputs, name) {
            Some(t) => Some(t),
            None => find_type(self.outputs, name),
        }
    }

    /// The declared type of `name` as a signal to read: an output first,
    /// else an input.
    pub open spec fn read_type(self, name: Seq<char>) -> Option<IOType> {
        match find_type(self.outputs, name) {
            Some(t) => Some(t),
            None => find_type(self.inputs, name),
        }
    }
}

/// In a list of unique names, the signal at `i` is the one found by its name.
pub proof fn lemma_find_type_at(specs: Seq<IOSpecView>, i: int)
    requires
        names_unique(specs),
        0 <= i < specs.len(),
    ensures
        find_type(specs, specs[i].name) == Some(specs[i].io_type),
    decreases specs.len(),
{
    if i > 0 {
        let rest = specs.drop_first();
        assert(rest[i - 1] == specs[i]);
        assert(names_unique(rest)) by {
            assert forall|a: int, b: int|
                0 <= a < rest.len() && 0 <= b < rest.len() && a != b implies rest[a].name
                    != rest[b].name by {
                assert(rest[a] == specs[a + 1]);
                assert(rest[b] == specs[b + 1]);
            }
        }
        assert(specs[0].name != specs[i].name);
        lemma_find_type_at(rest, i - 1);
    }
}

/// A name that no signal of the list carries is not found.
pub proof fn lemma_find_type_absent(specs: Seq<IOSpecView>, name: Seq<char>)
    requires
        forall|i: int| 0 <= i < specs.len() ==> specs[i].name != name,
    ensures
        find_type(specs, name) is None,
    decreases specs.len(),
{
    if specs.len() > 0 {
        let rest = specs.drop_first();
        assert forall|i: int| 0 <= i < rest.len() implies rest[i].name != name by {
            assert(rest[i] == specs[i + 1]);
        }
        lemma_find_type_absent(rest, name);
    }
}

/// Looks `name` up in `specs` and returns the type of its first occurrence.
pub fn declared_type(specs: &Vec<IOSpec>, name: &str) -> (r: Option<IOType>)
    ensures
        r == find_type(specs_view(specs@), name@),
{
    let key = name.to_owned();
    let ghost all = specs_view(specs@);
    assert(all.subrange(0, all.len() as int) =~= all);
    let mut i: usize = 0;
    while i < specs.len()
        invariant
            0 <= i <= specs.len(),
            all == specs_view(specs@),
            key@ == name@,
            find_type(all, name@) == find_type(all.subrange(i as int, all.len() as int), name@),
        decreases specs.len() - i,
    {
        let ghost rest = all.subrange(i as int, all.len() as int);
        assert(rest[0] == specs@[i as int]@);
        if specs[i].name == key {
            return Some(specs[i].io_type);
        }
        assert(rest.drop_first() =~= all.subrange(i + 1, all.len() as int));
        i = i + 1;
    }
    assert(all.subrange(i as int, all.len() as int).len() == 0);
    None
}

impl ComponentMetadata {
    /// The declared type of `name` as a signal to write.
    pub fn write_type(&self, name: &str) -> (r: Option<IOType>)
        ensures
            r == self@.write_type(name@),
    {
        match declared_type(&self.inputs, name) {
            Some(t) => Some(t),
            None => declared_type(&self.outputs, name),
        }
    }

    /// The declared type of `name` as a signal to read.
    pub fn read_type(&self, name: &str) -> (r: Option<IOType>)
        ensures
            r == self@.read_type(name@),
    {
        match declared_type(&self.outputs, name) {
            Some(t) => Some(t),
            None => declared_type(&self.inputs, name),
        }
    }

    /// The names of the declared outputs, in order.
    pub fn output_names(&self) -> (r: Vec<String>)
        ensures
            r@.map_values(|s: String| s@) == names_of(self@.outputs),
    {
        let mut r: Vec<String> = Vec::new();
        let mut i: usize = 0;
        while i < self.outputs.len()
            invariant
                0 <= i <= self.outputs.len(),
                r@.map_values(|s: String| s@) =~= names_of(self@.outputs).take(i as int),
            decreases self.outputs.len() - i,
        {
            r.push(self.outputs[i].name.clone());
            assert(names_of(self@.outputs).take(i + 1) =~= names_of(self@.outputs).take(
                i as int,
            ).push(self.outputs@[i as int].name@));
            i = i + 1;
        }
        assert(names_of(self@.outputs).take(i as int) =~= names_of(self@.outputs));
        r
    }
}

} // verus!
