//! The standalone harness adapter: file-list replay.
//!
//! In standalone mode the harness binary replays a list of filesystem paths
//! instead of running under an engine: each path names either one input file
//! or a directory whose immediate regular files are the inputs. Reading
//! metadata and file contents is I/O and happens outside this crate; the
//! functions here take those answers as plain values and decide, with exact
//! contracts, which inputs run, which paths are reported, and which inputs
//! are skipped silently. Per-input failures are local: a path whose metadata
//! cannot be read and a file that cannot be read are reported and skipped,
//! while an input whose structured decoding fails is skipped without a
//! report — malformed inputs are routine in fuzzing workflows.

use vstd::prelude::*;

use crate::jobs::strings_view;

verus! {

/// One immediate entry of a replayed directory: its path and whether it is a
/// regular file.
#[derive(Debug)]
pub struct DirEntry {
    pub path: String,
    pub is_regular_file: bool,
}

/// What the filesystem said about one command-line path: nothing readable, a
/// non-directory (replayed as a single input file), or a directory with its
/// immediate entries.
#[derive(Debug)]
pub enum PathLookup {
    Missing,
    File,
    Directory(Vec<DirEntry>),
}

/// What to do for one command-line path: replay these input files, in order,
/// or report the path as unreadable and continue with the next one.
#[derive(Debug)]
pub enum Resolution {
    Files(Vec<String>),
    Unreadable,
}

/// How reading one input file went: its full contents, or a read failure
/// (reported, then skipped).
#[derive(Debug)]
pub enum ReadOutcome {
    Data(Vec<u8>),
    Failed,
}

/// The paths of the regular-file entries of a directory, in enumeration
/// order; other entries (subdirectories and the like) are not replayed and
/// not recursed into.
pub open spec fn regular_file_paths(entries: Seq<DirEntry>) -> Seq<Seq<char>>
    decreases entries.len(),
{
    if entries.len() == 0 {
        Seq::<Seq<char>>::empty()
    } else {
        let prefix = regular_file_paths(entries.drop_last());
        if entries.last().is_regular_file {
            prefix.push(entries.last().path@)
        } else {
            prefix
        }
    }
}

/// The input files one path resolves to: a non-directory is one input
/// itself; a directory contributes its immediate regular files; an
/// unreadable path contributes none.
pub open spec fn resolved_inputs(path: Seq<char>, lookup: PathLookup) -> Seq<Seq<char>> {
    match lookup {
        PathLookup::Missing => Seq::<Seq<char>>::empty(),
        PathLookup::File => seq![path],
        PathLookup::Directory(entries) => regular_file_paths(entries@),
    }
}

/// The regular-file entries of a directory, exactly as
/// [`regular_file_paths`] describes.
fn regular_files(entries: &Vec<DirEntry>) -> (files: Vec<String>)
    ensures
        strings_view(files@) == regular_file_paths(entries@),
{
    let mut files: Vec<String> = Vec::new();
    let mut i: usize = 0;
    while i < entries.len()
        invariant
            i <= entries@.len(),
            strings_view(files@) == regular_file_paths(entries@.take(i as int)),
        decreases entries@.len() - i,
    {
        if entries[i].is_regular_file {
            files.push(entries[i].path.clone());
        }
        proof {
            assert(entries@.take(i + 1).drop_last() =~= entries@.take(i as int));
            assert(entries@.take(i + 1).last() == entries@[i as int]);
            assert(strings_view(files@) =~= regular_file_paths(entries@.take(i + 1)));
        }
        i = i + 1;
    }
    proof {
        assert(entries@.take(entries@.len() as int) =~= entries@);
    }
    files
}

/// Decides what one command-line path means, from the filesystem's answer:
/// an unreadable path is reported and skipped (never fatal), a non-directory
/// is one input, and a directory's immediate regular files are each one
/// input, in enumeration order.
pub fn resolve_path(path: &String, lookup: &PathLookup) -> (r: Resolution)
    ensures
        match r {
            Resolution::Files(files) => !(*lookup is Missing) && strings_view(files@)
                == resolved_inputs(path@, *lookup),
            Resolution::Unreadable => *lookup is Missing,
        },
{
    match lookup {
        PathLookup::Missing => Resolution::Unreadable,
        PathLookup::File => {
            let mut files: Vec<String> = Vec::new();
            files.push(path.clone());
            proof {
                assert(strings_view(files@) =~= resolved_inputs(path@, *lookup));
            }
            Resolution::Files(files)
        },
        PathLookup::Directory(entries) => Resolution::Files(regular_files(entries)),
    }
}

/// The contents of the inputs that run: every successful read, in order.
pub open spec fn run_bytes(reads: Seq<(String, ReadOutcome)>) -> Seq<Seq<u8>>
    decreases reads.len(),
{
    if reads.len() == 0 {
        Seq::<Seq<u8>>::empty()
    } else {
        let prefix = run_bytes(reads.drop_last());
        match reads.last().1 {
            ReadOutcome::Data(b) => prefix.push(b@),
            ReadOutcome::Failed => prefix,
        }
    }
}

/// The paths whose read failed, in order: these are reported and skipped.
pub open spec fn failed_paths(reads: Seq<(String, ReadOutcome)>) -> Seq<Seq<char>>
    decreases reads.len(),
{
    if reads.len() == 0 {
        Seq::<Seq<char>>::empty()
    } else {
        let prefix = failed_paths(reads.drop_last());
        match reads.last().1 {
            ReadOutcome::Data(b) => prefix,
            ReadOutcome::Failed => prefix.push(reads.last().0@),
        }
    }
}

/// Splits one replay pass's read outcomes into the inputs the harness body
/// runs on — each successfully read file's exact bytes, once, in order — and
/// the paths to report for failed reads. Nothing else is run, reported or
/// retried.
pub fn replay_outcomes(reads: Vec<(String, ReadOutcome)>) -> (r: (Vec<Vec<u8>>, Vec<String>))
    ensures
        bytes_view(r.0@) == run_bytes(reads@),
        strings_view(r.1@) == failed_paths(reads@),
{
    let ghost orig = reads@;
    let mut rest = reads;
    let mut runs: Vec<Vec<u8>> = Vec::new();
    let mut reported: Vec<String> = Vec::new();
    while rest.len() > 0
        invariant
            rest@.len() <= orig.len(),
            rest@ == orig.subrange(orig.len() - rest@.len(), orig.len() as int),
            bytes_view(runs@) == run_bytes(orig.take(orig.len() - rest@.len())),
            strings_view(reported@) == failed_paths(orig.take(orig.len() - rest@.len())),
        decreases rest@.len(),
    {
        let ghost k = orig.len() - rest@.len();
        let (path, outcome) = rest.remove(0);
        proof {
            assert(rest@ =~= orig.subrange(k + 1, orig.len() as int));
            assert(orig.take(k + 1).drop_last() =~= orig.take(k as int));
            assert(orig.take(k + 1).last() == orig[k as int]);
        }
        match outcome {
            ReadOutcome::Data(b) => {
                runs.push(b);
            },
            ReadOutcome::Failed => {
                reported.push(path);
            },
        }
        proof {
            assert(bytes_view(runs@) =~= run_bytes(orig.take(k + 1)));
            assert(strings_view(reported@) =~= failed_paths(orig.take(k + 1)));
        }
    }
    proof {
        assert(orig.take(orig.len() as int) =~= orig);
    }
    (runs, reported)
}

/// The views of a vector of byte vectors.
pub open spec fn bytes_view(v: Seq<Vec<u8>>) -> Seq<Seq<u8>> {
    v.map_values(|b: Vec<u8>| b@)
}

/// Every read outcome goes one way or the other: the inputs that run and the
/// paths reported for failed reads together account for exactly one decision
/// per file, with nothing dropped and nothing handled twice.
pub proof fn lemma_replay_partition(reads: Seq<(String, ReadOutcome)>)
    ensures
        run_bytes(reads).len() + failed_paths(reads).len() == reads.len(),
    decreases reads.len(),
{
    if reads.len() > 0 {
        lemma_replay_partition(reads.drop_last());
    }
}

/// The structured values that survive decoding: every decodable input, in
/// order. An input whose decoding failed is skipped silently — it appears in
/// no output and is never reported, in any execution mode.
pub open spec fn present_values<T>(decodes: Seq<Option<T>>) -> Seq<T>
    decreases decodes.len(),
{
    if decodes.len() == 0 {
        Seq::<T>::empty()
    } else {
        let prefix = present_values(decodes.drop_last());
        match decodes.last() {
            Some(v) => prefix.push(v),
            None => prefix,
        }
    }
}

/// Keeps the structured values whose decoding succeeded, in order, exactly
/// as [`present_values`] describes; failed decodings leave no trace.
pub fn decoded_inputs<T>(decodes: Vec<Option<T>>) -> (r: Vec<T>)
    ensures
        r@ == present_values(decodes@),
{
    let ghost orig = decodes@;
    let mut rest = decodes;
    let mut out: Vec<T> = Vec::new();
    while rest.len() > 0
        invariant
            rest@.len() <= orig.len(),
            rest@ == orig.subrange(orig.len() - rest@.len(), orig.len() as int),
            out@ == present_values(orig.take(orig.len() - rest@.len())),
        decreases rest@.len(),
    {
        let ghost k = orig.len() - rest@.len();
        let d = rest.remove(0);
        proof {
            assert(rest@ =~= orig.subrange(k + 1, orig.len() as int));
            assert(orig.take(k + 1).drop_last() =~= orig.take(k as int));
            assert(orig.take(k + 1).last() == orig[k as int]);
        }
        match d {
            Some(v) => {
                out.push(v);
            },
            None => {},
        }
        proof {
            assert(out@ =~= present_values(orig.take(k + 1)));
        }
    }
    proof {
        assert(orig.take(orig.len() as int) =~= orig);
    }
    out
}

/// Removing the front of a vector of byte buffers whose views form a suffix
/// of `all` starting at `at` leaves the suffix starting at `at + 1`, and the
/// removed buffer holds `all[at]`.
proof fn lemma_bytes_view_remove_front(prev: Seq<Vec<u8>>, all: Seq<Seq<u8>>, at: int)
    requires
        0 <= at,
        at + prev.len() == all.len(),
        prev.len() > 0,
        bytes_view(prev) == all.subrange(at, all.len() as int),
    ensures
        bytes_view(prev.remove(0)) == all.subrange(at + 1, all.len() as int),
        prev[0]@ == all[at],
{
    assert(bytes_view(prev)[0] == prev[0]@);
    assert(bytes_view(prev)[0] == all.subrange(at, all.len() as int)[0]);
    assert forall|i: int| 0 <= i < prev.remove(0).len() implies bytes_view(prev.remove(0))[i]
        == all.subrange(at + 1, all.len() as int)[i] by {
        assert(prev.remove(0)[i] == prev[i + 1]);
        assert(bytes_view(prev.remove(0))[i] == prev.remove(0)[i]@);
        assert(bytes_view(prev)[i + 1] == prev[i + 1]@);
        assert(bytes_view(prev)[i + 1] == all.subrange(at, all.len() as int)[i + 1]);
    }
    assert(bytes_view(prev.remove(0)) =~= all.subrange(at + 1, all.len() as int));
}

/// The standalone input strategy: one finite pass over the resolved inputs.
/// `acquire_next_input` hands out each input exactly once, in order, then
/// answers `None` — there is no retry and no engine involved.
pub struct ReplayQueue {
    pub pending: Vec<Vec<u8>>,
    pub all_inputs: Ghost<Seq<Seq<u8>>>,
    pub served: Ghost<int>,
}

impl ReplayQueue {
    /// The queue's invariant: what is pending is exactly the not-yet-served
    /// suffix of the inputs the queue was created over.
    pub open spec fn wf(self) -> bool {
        &&& 0 <= self.served@ <= self.all_inputs@.len()
        &&& bytes_view(self.pending@) == self.all_inputs@.subrange(
            self.served@,
            self.all_inputs@.len() as int,
        )
    }

    /// A queue over the given inputs, none served yet.
    pub fn new(inputs: Vec<Vec<u8>>) -> (q: ReplayQueue)
        ensures
            q.wf(),
            q.all_inputs@ == bytes_view(inputs@),
            q.served@ == 0,
    {
        let q = ReplayQueue {
            all_inputs: Ghost(bytes_view(inputs@)),
            pending: inputs,
            served: Ghost(0int),
        };
        proof {
            assert(bytes_view(q.pending@) =~= q.all_inputs@.subrange(
                0,
                q.all_inputs@.len() as int,
            ));
        }
        q
    }

    /// The next input, or `None` once every input has been served. Input
    /// number `served` of the original list is returned by exactly the call
    /// that moves `served` past it, so each input is replayed once.
    pub fn acquire_next_input(&mut self) -> (r: Option<Vec<u8>>)
        requires
            old(self).wf(),
        ensures
            final(self).wf(),
            final(self).all_inputs@ == old(self).all_inputs@,
            match r {
                Some(b) => {
                    &&& old(self).served@ < old(self).all_inputs@.len()
                    &&& b@ == old(self).all_inputs@[old(self).served@]
                    &&& final(self).served@ == old(self).served@ + 1
                },
                None => {
                    &&& old(self).served@ == old(self).all_inputs@.len()
                    &&& final(self).served@ == old(self).served@
                },
            },
    {
        if self.pending.len() == 0 {
            proof {
                assert(bytes_view(self.pending@).len() == 0);
            }
            None
        } else {
            let ghost prev = self.pending@;
            let ghost at = self.served@;
            proof {
                assert(bytes_view(prev).len() == prev.len());
                lemma_bytes_view_remove_front(prev, self.all_inputs@, at);
            }
            let b = self.pending.remove(0);
            self.served = Ghost(at + 1);
            Some(b)
        }
    }
}

} // verus!
