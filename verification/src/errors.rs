//! Build-time diagnostics for the annotation generator.
//!
//! A transformation pass processes many fields independently; every problem
//! found along the way is carried as a [`Note`] and the notes are merged into
//! one [`Error`], so a single run surfaces every problem at once instead of
//! stopping at the first.

use vstd::prelude::*;

verus! {

/// One diagnostic: a source-location tag and a message. The tag is an opaque
/// identifier the caller assigned to a place in the input; it is never
/// interpreted here, only carried through for attribution.
pub struct Note {
    pub site: usize,
    pub message: String,
}

/// A build-time error: one or more notes reported together.
pub struct Error {
    pub notes: Vec<Note>,
}

impl Error {
    /// A reportable error carries at least one note.
    pub open spec fn wf(&self) -> bool {
        self.notes@.len() > 0
    }

    /// An error holding a single note.
    pub fn new(site: usize, message: String) -> (r: Error)
        ensures
            r.notes@.len() == 1,
            r.notes@[0].site == site,
            r.notes@[0].message == message,
    {
        let mut notes: Vec<Note> = Vec::new();
        notes.push(Note { site, message });
        Error { notes }
    }

    /// Merges another error into this one; the other's notes follow this
    /// one's, in order.
    pub fn combine(&mut self, other: Error)
        ensures
            final(self).notes@ == old(self).notes@ + other.notes@,
    {
        let mut o = other;
        self.notes.append(&mut o.notes);
    }
}

/// A per-item result is reportable when a failure carries at least one note.
pub open spec fn result_wf(r: Result<(), Error>) -> bool {
    match r {
        Ok(_) => true,
        Err(e) => e.wf(),
    }
}

/// The notes that a sequence of per-item results contributes, in order:
/// nothing for a success, the error's own notes for a failure.
pub open spec fn gathered_notes(results: Seq<Result<(), Error>>) -> Seq<Note>
    decreases results.len(),
{
    if results.len() == 0 {
        Seq::empty()
    } else {
        gathered_notes(results.drop_last()) + (match results.last() {
            Ok(_) => Seq::<Note>::empty(),
            Err(e) => e.notes@,
        })
    }
}

/// Appending a success to a result sequence contributes no notes; appending a
/// failure appends exactly its notes.
pub proof fn lemma_gathered_notes_push(results: Seq<Result<(), Error>>, x: Result<(), Error>)
    ensures
        gathered_notes(results.push(x)) == gathered_notes(results) + (match x {
            Ok(_) => Seq::<Note>::empty(),
            Err(e) => e.notes@,
        }),
{
    assert(results.push(x).drop_last() =~= results);
    assert(results.push(x).last() == x);
}

/// Appending a success leaves the gathered notes unchanged.
pub proof fn lemma_gathered_notes_push_ok(results: Seq<Result<(), Error>>)
    ensures
        gathered_notes(results.push(Ok(()))) == gathered_notes(results),
{
    lemma_gathered_notes_push(results, Ok(()));
    assert(gathered_notes(results) + Seq::<Note>::empty() =~= gathered_notes(results));
}

/// Merges per-item results into one: `Ok` when no item contributed a note,
/// otherwise a single error holding every contributed note in order.
pub fn collect_errors(results: Vec<Result<(), Error>>) -> (r: Result<(), Error>)
    requires
        forall|i: int| 0 <= i < results@.len() ==> result_wf(#[trigger] results@[i]),
    ensures
        gathered_notes(results@).len() == 0 ==> r is Ok,
        gathered_notes(results@).len() > 0 ==> (r matches Err(e) && e.notes@
            == gathered_notes(results@)),
{
    let ghost orig = results@;
    let mut rem = results;
    let mut acc: Option<Error> = None;
    while rem.len() > 0
        invariant
            forall|i: int| 0 <= i < orig.len() ==> result_wf(#[trigger] orig[i]),
            rem@ == orig.skip(orig.len() - rem@.len()),
            rem@.len() <= orig.len(),
            ({
                let done = orig.take(orig.len() - rem@.len());
                match acc {
                    None => gathered_notes(done).len() == 0,
                    Some(e) => e.notes@ == gathered_notes(done) && e.notes@.len() > 0,
                }
            }),
        decreases rem@.len(),
    {
        let ghost k = orig.len() - rem@.len();
        let x = rem.remove(0);
        proof {
            assert(x == orig[k as int]);
            assert(rem@ =~= orig.skip(k + 1));
            assert(orig.take(k + 1).drop_last() =~= orig.take(k as int));
            assert(orig.take(k + 1).last() == orig[k as int]);
        }
        match x {
            Ok(_) => {
                proof {
                    assert(gathered_notes(orig.take(k + 1)) == gathered_notes(orig.take(k as int))
                        + Seq::<Note>::empty());
                    assert(gathered_notes(orig.take(k as int)) + Seq::<Note>::empty()
                        =~= gathered_notes(orig.take(k as int)));
                }
            },
            Err(e) => {
                proof {
                    assert(result_wf(orig[k as int]));
                    assert(e.wf());
                    assert(gathered_notes(orig.take(k + 1)) == gathered_notes(orig.take(k as int))
                        + e.notes@);
                }
                let prev = acc;
                match prev {
                    None => {
                        proof {
                            assert(gathered_notes(orig.take(k as int)) =~= Seq::<Note>::empty());
                            assert(Seq::<Note>::empty() + e.notes@ =~= e.notes@);
                            assert(e.notes@ == gathered_notes(orig.take(k + 1)));
                        }
                        acc = Some(e);
                    },
                    Some(a) => {
                        let mut merged = a;
                        merged.combine(e);
                        proof {
                            assert(merged.notes@ == gathered_notes(orig.take(k + 1)));
                        }
                        acc = Some(merged);
                    },
                }
            },
        }
        proof {
            assert(orig.len() - rem@.len() == k + 1);
            assert(rem@ == orig.skip(orig.len() - rem@.len()));
        }
    }
    proof {
        assert(orig.take(orig.len() - rem@.len()) =~= orig);
    }
    match acc {
        None => Ok(()),
        Some(e) => Err(e),
    }
}

} // verus!
