//! A loaded program and its label table.
//!
//! A label marker occupies a slot of the program. The table maps each label
//! name to the index of its marker; it is built once, when the program is
//! linked, and a program in which two markers share a name does not link.

use crate::error::{ErrorKind, VmError};
use crate::instruction::{ops, Instruction, Op};
use vstd::prelude::*;

verus! {

/// Whether position `i` of `code` holds the marker of label `name`.
pub open spec fn marks(code: Seq<Op>, i: int, name: Seq<char>) -> bool {
    0 <= i < code.len() && code[i] == Op::Label(name)
}

/// Whether no two markers of `code` share a name.
pub open spec fn labels_distinct(code: Seq<Op>) -> bool {
    forall|i: int, j: int, name: Seq<char>|
        #![trigger marks(code, i, name), marks(code, j, name)]
        marks(code, i, name) && marks(code, j, name) ==> i == j
}

/// The index of the marker of label `name` in `code`, if there is one.
pub open spec fn resolve(code: Seq<Op>, name: Seq<char>) -> Option<nat> {
    if exists|i: int| marks(code, i, name) {
        Some((choose|i: int| marks(code, i, name)) as nat)
    } else {
        None
    }
}

/// Whether the marker at position `j` repeats the name of an earlier marker.
pub open spec fn repeats(code: Seq<Op>, j: int) -> bool {
    exists|i: int, name: Seq<char>| i < j && #[trigger] marks(code, i, name) && marks(code, j, name)
}

/// Whether `j` is the first position whose marker repeats an earlier name.
pub open spec fn first_repeat(code: Seq<Op>, j: int) -> bool {
    repeats(code, j) && forall|k: int| 0 <= k < j ==> !repeats(code, k)
}

/// One line of the label table.
struct LabelEntry {
    name: String,
    position: usize,
}

/// Whether some line of `entries` records position `i`.
spec fn listed(entries: Seq<LabelEntry>, i: int) -> bool {
    exists|k: int| 0 <= k < entries.len() && (#[trigger] entries[k]).position == i
}

/// Whether `entries` records exactly the markers among the first `upto`
/// positions of `code`, each under its name.
spec fn table_for(entries: Seq<LabelEntry>, code: Seq<Op>, upto: int) -> bool {
    &&& forall|k: int|
        0 <= k < entries.len() ==> (#[trigger] entries[k]).position < upto && marks(
            code,
            entries[k].position as int,
            entries[k].name@,
        )
    &&& forall|i: int, name: Seq<char>|
        0 <= i < upto && #[trigger] marks(code, i, name) ==> listed(entries, i)
}

/// Searches `entries` for the line of label `name`.
fn find(entries: &Vec<LabelEntry>, name: &String) -> (r: Option<usize>)
    ensures
        match r {
            Some(k) => k < entries.len() && entries[k as int].name@ == name@,
            None => forall|k: int| 0 <= k < entries.len() ==> (#[trigger] entries[k]).name@ != name@,
        },
{
    let mut k: usize = 0;
    while k < entries.len()
        invariant
            k <= entries.len(),
            forall|j: int| 0 <= j < k ==> (#[trigger] entries[j]).name@ != name@,
        decreases entries.len() - k,
    {
        if entries[k].name == *name {
            return Some(k);
        }
        k += 1;
    }
    None
}

/// Builds the label table of `code` in one pass, or reports the first marker
/// that repeats a name.
fn index_labels(code: &Vec<Instruction>) -> (r: Result<Vec<LabelEntry>, VmError>)
    ensures
        match r {
            Ok(table) => labels_distinct(ops(code@)) && table_for(
                table@,
                ops(code@),
                code@.len() as int,
            ),
            Err(e) => e.kind == ErrorKind::DuplicateLabel && first_repeat(ops(code@), e.index as int),
        },
{
    let ghost model = ops(code@);
    let mut table: Vec<LabelEntry> = Vec::new();
    let mut i: usize = 0;
    while i < code.len()
        invariant
            i <= code.len(),
            model == ops(code@),
            table_for(table@, model, i as int),
            forall|j: int| 0 <= j < i ==> !repeats(model, j),
        decreases code.len() - i,
    {
        match &code[i] {
            Instruction::Label(name) => {
                match find(&table, name) {
                    Some(k) => {
                        // The line found records an earlier marker of this name.
                        assert(marks(model, table@[k as int].position as int, name@));
                        return Err(VmError { kind: ErrorKind::DuplicateLabel, index: i });
                    },
                    None => {
                        let ghost before = table@;
                        assert(!repeats(model, i as int)) by {
                            if repeats(model, i as int) {
                                // An earlier marker of this name would have a line.
                                let (p, other) = choose|p: int, other: Seq<char>|
                                    p < i && #[trigger] marks(model, p, other) && marks(
                                        model,
                                        i as int,
                                        other,
                                    );
                                assert(listed(before, p));
                                let k = choose|k: int|
                                    0 <= k < before.len() && (#[trigger] before[k]).position == p;
                                assert(before[k].name@ == name@);
                            }
                        }
                        table.push(LabelEntry { name: name.clone(), position: i });
                        assert forall|p: int, other: Seq<char>|
                            0 <= p < i + 1 && #[trigger] marks(model, p, other) implies listed(
                            table@,
                            p,
                        ) by {
                            if p < i {
                                assert(listed(before, p));
                                let k = choose|k: int|
                                    0 <= k < before.len() && (#[trigger] before[k]).position == p;
                                assert(table@[k].position == p);
                            } else {
                                assert(table@[before.len() as int].position == p);
                            }
                        }
                    },
                }
            },
            _ => {},
        }
        i += 1;
    }
    assert forall|a: int, b: int, name: Seq<char>|
        #![trigger marks(model, a, name), marks(model, b, name)]
        marks(model, a, name) && marks(model, b, name) implies a == b by {
        if a < b {
            assert(repeats(model, b));
        } else if b < a {
            assert(repeats(model, a));
        }
    }
    Ok(table)
}

/// A program together with the table of its labels.
pub struct Program {
    code: Vec<Instruction>,
    labels: Vec<LabelEntry>,
}

impl View for Program {
    type V = Seq<Op>;

    closed spec fn view(&self) -> Seq<Op> {
        ops(self.code@)
    }
}

impl Program {
    #[verifier::type_invariant]
    spec fn linked(self) -> bool {
        labels_distinct(ops(self.code@)) && table_for(
            self.labels@,
            ops(self.code@),
            self.code@.len() as int,
        )
    }

    /// The program without instructions.
    pub fn empty() -> (r: Program)
        ensures
            r@ == Seq::<Op>::empty(),
    {
        let r = Program { code: Vec::new(), labels: Vec::new() };
        r
    }

    /// Links `code`: builds its label table. Fails on the first marker that
    /// repeats the name of an earlier one.
    pub fn link(code: Vec<Instruction>) -> (r: Result<Program, VmError>)
        ensures
            match r {
                Ok(program) => program@ == ops(code@) && labels_distinct(ops(code@)),
                Err(e) => e.kind == ErrorKind::DuplicateLabel && first_repeat(
                    ops(code@),
                    e.index as int,
                ),
            },
    {
        match index_labels(&code) {
            Ok(labels) => Ok(Program { code, labels }),
            Err(e) => Err(e),
        }
    }

    /// The number of instructions. No two markers of a linked program share
    /// a name.
    pub fn len(&self) -> (r: usize)
        ensures
            r == self@.len(),
            labels_distinct(self@),
    {
        proof {
            use_type_invariant(self);
        }
        self.code.len()
    }

    /// The instructions, in program order.
    pub fn instructions(&self) -> (r: &Vec<Instruction>)
        ensures
            ops(r@) == self@,
            labels_distinct(self@),
    {
        proof {
            use_type_invariant(self);
        }
        &self.code
    }

    /// The instruction at `index`.
    pub fn fetch(&self, index: usize) -> (r: &Instruction)
        requires
            index < self@.len(),
        ensures
            r@ == self@[index as int],
    {
        &self.code[index]
    }

    /// Looks up the index of the marker of label `name`.
    pub fn target(&self, name: &String) -> (r: Option<usize>)
        ensures
            match r {
                Some(position) => resolve(self@, name@) == Some(position as nat),
                None => resolve(self@, name@) is None,
            },
    {
        proof {
            use_type_invariant(self);
        }
        let ghost model = ops(self.code@);
        match find(&self.labels, name) {
            Some(k) => {
                let position: usize = self.labels[k].position;
                assert(marks(model, position as int, name@));
                Some(position)
            },
            None => {
                assert forall|i: int| !marks(model, i, name@) by {
                    if marks(model, i, name@) {
                        // A marker of this name would have a line.
                        assert(listed(self.labels@, i));
                        let k = choose|k: int|
                            0 <= k < self.labels@.len() && (#[trigger] self.labels@[k]).position
                                == i;
                        assert(self.labels@[k].name@ == name@);
                    }
                }
                None
            },
        }
    }
}

/// A program has a first repeated marker exactly if its labels are not
/// distinct.
pub proof fn lemma_distinct_iff_no_repeat(code: Seq<Op>)
    ensures
        labels_distinct(code) <==> forall|j: int| !repeats(code, j),
{
    if labels_distinct(code) {
        assert forall|j: int| !repeats(code, j) by {
            if repeats(code, j) {
                let (i, name) = choose|i: int, name: Seq<char>|
                    i < j && #[trigger] marks(code, i, name) && marks(code, j, name);
                assert(i == j);
            }
        }
    }
    if forall|j: int| !repeats(code, j) {
        assert forall|a: int, b: int, name: Seq<char>|
            #![trigger marks(code, a, name), marks(code, b, name)]
            marks(code, a, name) && marks(code, b, name) implies a == b by {
            if a < b {
                assert(repeats(code, b));
            } else if b < a {
                assert(repeats(code, a));
            }
        }
    }
}

} // verus!
