//! The decisions of the material transcoder.
//!
//! A binary material file does not say which version of the format it is
//! in: that is found by trying to parse it under every known version, in
//! one fixed order, and the first version under which it parses counts.
//! The version that the host expects is found in the same way, once, from
//! a material file of the host itself. A file in another version than the
//! host's is written anew in the host's version.
//!
//! Parsing and writing are the caller's part. This module says which
//! attempt is next and what follows from how the attempts went.

use crate::trial::{finished, is_first_success, lemma_trial_finds_first, started, Trial};
use vstd::prelude::*;

verus! {

/// A known version of the material format, named by its place in the order
/// in which the versions are tried.
#[derive(Clone, Copy, Debug, PartialEq, Eq, Structural)]
pub struct MaterialVersionTag {
    pub ordinal: usize,
}

/// What is known of the version that the host expects.
#[derive(Clone, Copy, Debug, PartialEq, Eq, Structural)]
pub enum DetectedHostVersion {
    /// Detection failed: material files are left as they are.
    Unknown,
    /// The host expects this version.
    Known(MaterialVersionTag),
}

/// How many places the reference material of the host is looked for in.
pub const REFERENCE_PATHS: usize = 2;

/// The places where the reference material of the host is looked for, in
/// the order in which they are tried.
pub open spec fn reference_path(attempt: usize) -> Option<&'static str> {
    if attempt == 0 {
        Some("assets/renderer/materials/UIText.material.bin")
    } else if attempt == 1 {
        Some("renderer/materials/UIText.material.bin")
    } else {
        None
    }
}

/// The place to look for the reference material of the host at the given
/// attempt; `None` once every place has been tried.
pub fn get_uitext(attempt: usize) -> (r: Option<&'static str>)
    ensures
        r == reference_path(attempt),
        r is Some <==> attempt < REFERENCE_PATHS,
{
    if attempt == 0 {
        Some("assets/renderer/materials/UIText.material.bin")
    } else if attempt == 1 {
        Some("renderer/materials/UIText.material.bin")
    } else {
        None
    }
}

/// What a finished trial of the versions on the reference material says
/// of the host: the version that was accepted, if one was.
pub open spec fn detected(reference: Option<Trial>) -> DetectedHostVersion {
    match reference {
        Some(Trial::Accepted(ordinal)) => DetectedHostVersion::Known(
            MaterialVersionTag { ordinal },
        ),
        _ => DetectedHostVersion::Unknown,
    }
}

/// Concludes the detection of the host's version. `reference` is the
/// trial of the known versions on the reference material, carried to its
/// end; `None` where that material could not be had or read.
pub fn get_current_mcver(reference: Option<Trial>) -> (r: DetectedHostVersion)
    ensures
        r == detected(reference),
{
    match reference {
        Some(Trial::Accepted(ordinal)) => DetectedHostVersion::Known(
            MaterialVersionTag { ordinal },
        ),
        _ => DetectedHostVersion::Unknown,
    }
}

/// The place where the detected version of the host is kept. It is
/// settled once, by the first detection, and never changes after that.
pub struct HostVersionCell {
    settled: Option<DetectedHostVersion>,
}

impl View for HostVersionCell {
    type V = Option<DetectedHostVersion>;

    closed spec fn view(&self) -> Option<DetectedHostVersion> {
        self.settled
    }
}

impl HostVersionCell {
    /// A cell in which nothing is settled yet.
    pub fn new() -> (r: HostVersionCell)
        ensures
            r@ is None,
    {
        HostVersionCell { settled: None }
    }

    /// What is settled, if anything is.
    pub fn get(&self) -> (r: Option<DetectedHostVersion>)
        ensures
            r == self@,
    {
        self.settled
    }

    /// What is settled, after running `detect` where nothing is settled yet.
    /// The detection runs at most once in the life of a cell: once it has
    /// given its answer, be it that it failed, the answer stays.
    pub fn get_or_detect<F: FnOnce() -> DetectedHostVersion>(&mut self, detect: F) -> (r:
        DetectedHostVersion)
        requires
            old(self)@ is None ==> detect.requires(()),
        ensures
            final(self)@ == Some(r),
            match old(self)@ {
                Some(first) => r == first,
                None => detect.ensures((), r),
            },
    {
        match self.settled {
            Some(first) => first,
            None => {
                let found: DetectedHostVersion = detect();
                self.settled = Some(found);
                found
            },
        }
    }
}

/// What the transcoder does next with one material file.
#[derive(Clone, Copy, Debug, PartialEq, Eq, Structural)]
pub enum TranscodeStep {
    /// Try to parse the file under this version.
    Parse(MaterialVersionTag),
    /// Write what was parsed under `from` anew in the version `to`. What
    /// comes out takes the place of the file; where writing fails, the
    /// file stays as it is.
    Write { from: MaterialVersionTag, to: MaterialVersionTag },
    /// The file stays as it is.
    Keep,
}

/// What the transcoder does next, where the host expects `host` and the
/// trial of the versions on the file stands at `probe`.
///
/// Nothing is tried while the host's version is unknown. A file in the
/// host's version, and a file that parses under no version, are kept.
pub open spec fn next_step(host: DetectedHostVersion, probe: Trial) -> TranscodeStep {
    match host {
        DetectedHostVersion::Unknown => TranscodeStep::Keep,
        DetectedHostVersion::Known(target) => match probe {
            Trial::Try(ordinal) => TranscodeStep::Parse(MaterialVersionTag { ordinal }),
            Trial::Accepted(ordinal) => if ordinal == target.ordinal {
                TranscodeStep::Keep
            } else {
                TranscodeStep::Write { from: MaterialVersionTag { ordinal }, to: target }
            },
            Trial::Exhausted => TranscodeStep::Keep,
        },
    }
}

/// Says what the transcoder does next with a material file, where the
/// host expects `host` and the trial of the versions on the file stands at
/// `probe`.
pub fn process_material(host: DetectedHostVersion, probe: Trial) -> (r: TranscodeStep)
    ensures
        r == next_step(host, probe),
{
    match host {
        DetectedHostVersion::Unknown => TranscodeStep::Keep,
        DetectedHostVersion::Known(target) => match probe {
            Trial::Try(ordinal) => TranscodeStep::Parse(MaterialVersionTag { ordinal }),
            Trial::Accepted(ordinal) => if ordinal == target.ordinal {
                TranscodeStep::Keep
            } else {
                TranscodeStep::Write { from: MaterialVersionTag { ordinal }, to: target }
            },
            Trial::Exhausted => TranscodeStep::Keep,
        },
    }
}

/// What becomes of a material file that parses under version `i` exactly
/// where `parses[i]` holds, once the trial of the `count` known versions
/// is carried to its end.
pub open spec fn verdict(
    host: DetectedHostVersion,
    count: usize,
    parses: Seq<bool>,
) -> TranscodeStep {
    next_step(host, finished(started(count), count, parses))
}

/// A file that parses under no version is kept as it is, and so is every
/// file while the host's version is unknown.
pub proof fn lemma_keeps_what_it_cannot_read(
    host: DetectedHostVersion,
    count: usize,
    parses: Seq<bool>,
)
    requires
        parses.len() == count,
        host is Unknown || forall|index: int| 0 <= index < count ==> !parses[index],
    ensures
        verdict(host, count, parses) == TranscodeStep::Keep,
{
    lemma_trial_finds_first(count, parses);
}

/// The first version under which a file parses counts as its version. A
/// file in the host's version is kept as it is: so what the transcoder has
/// kept once, it keeps again. A file in another version is written anew
/// from that version in the host's.
pub proof fn lemma_first_version_counts(
    target: MaterialVersionTag,
    count: usize,
    parses: Seq<bool>,
    ordinal: usize,
)
    requires
        parses.len() == count,
        is_first_success(parses, ordinal as int),
    ensures
        verdict(DetectedHostVersion::Known(target), count, parses) == if ordinal
            == target.ordinal {
            TranscodeStep::Keep
        } else {
            TranscodeStep::Write { from: (MaterialVersionTag { ordinal }), to: target }
        },
{
    lemma_trial_finds_first(count, parses);
    let end = finished(started(count), count, parses);
    assert(end is Accepted);
    if end->Accepted_0 < ordinal {
        assert(!parses[end->Accepted_0 as int]);
    } else if end->Accepted_0 > ordinal {
        assert(!parses[ordinal as int]);
    }
}

} // verus!
