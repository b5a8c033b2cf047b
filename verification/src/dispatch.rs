//! The dispatcher: what becomes of one open call.
//!
//! The archive has already answered the open when the dispatcher is asked.
//! It tries the rules on the path and says what is to happen to the handle.
//! Hiding an asset and installing a payload of the catalog are decided at
//! once. Content of the resource packs, and material files, whose format
//! may have to be rewritten for the host, take one or two more steps: the
//! dispatcher says what it needs, the caller gets it, and hands it back.

use crate::buffer::{BufferState, VirtualBuffer};
use crate::bytes::{ends_with, is_suffix, to_vec};
use crate::catalog::{Payload, PayloadCatalog};
use crate::features::Features;
use crate::path::{file_name, spec_file_name};
use crate::registry::{HandleId, Registry};
use crate::location::rewritten;
use crate::rules::{
    applies, evaluate_named, file_is, first_applicable, first_applicable_from,
    lemma_first_applicable, priority, rule_at, rule_order, strategy, Outcome, Rule, Strategy,
    RULE_COUNT,
};
use vstd::prelude::*;
use vstd::string::*;
use vstd::utf8::is_ascii_chars_encode_utf8;

verus! {

/// What the caller of the dispatcher is to do next.
#[derive(Debug)]
pub enum OpenStep {
    /// Nothing: the handle of the archive goes back to the host as it is.
    PassThrough,
    /// Release the handle of the archive and tell the host that the asset
    /// does not exist.
    Blocked,
    /// Nothing more: a virtual buffer stands under the handle, which goes
    /// back to the host.
    Installed,
    /// Run the transcoder on `bytes`, then call `on_transcoded` with these
    /// bytes and its answer.
    Transcode { bytes: Vec<u8> },
    /// Ask the resource packs for `location`, then call `on_resolved` with
    /// `material` and their answer.
    Resolve { location: Vec<u8>, material: bool },
}

/// What is to become of an open call, in terms of plain values.
pub enum Plan {
    /// The overlay stays out of it.
    PassThrough,
    /// The asset is hidden.
    Block,
    /// These bytes are installed.
    Install(Seq<u8>),
    /// These bytes go through the transcoder and are then installed.
    Transcode(Seq<u8>),
    /// The bytes come from this location of the resource packs; they go
    /// through the transcoder where the flag is set.
    Resolve(Seq<u8>, bool),
}

/// The file that the path names is a binary material file, which the
/// transcoder can rewrite.
pub open spec fn is_material(path: Seq<u8>) -> bool {
    spec_file_name(path) matches Some(name) && is_suffix(name, ".material.bin".spec_bytes())
}

/// What is to become of an open of `path` on which `rule` decides.
pub open spec fn carried_out(rule: Rule, catalog: PayloadCatalog, path: Seq<u8>) -> Plan {
    match strategy(rule) {
        Strategy::Block => Plan::Block,
        Strategy::Static(target) => if is_material(path) {
            Plan::Transcode(catalog.bytes_of(target))
        } else {
            Plan::Install(catalog.bytes_of(target))
        },
        Strategy::Resolve(rewrite) => Plan::Resolve(
            rewritten(path, rewrite).unwrap(),
            is_material(path),
        ),
    }
}

/// What is to become of the open of `path` that the archive answered with
/// `handle`.
///
/// An open that the archive failed, and a path without a file name, are
/// none of the overlay's business. Otherwise the first rule that applies
/// decides, and where none applies the overlay stays out of it as well.
pub open spec fn plan(
    features: Features,
    catalog: PayloadCatalog,
    handle: Option<HandleId>,
    path: Seq<u8>,
) -> Plan {
    if handle is None || spec_file_name(path) is None {
        Plan::PassThrough
    } else {
        match first_applicable(features, path) {
            None => Plan::PassThrough,
            Some(rule) => carried_out(rule, catalog, path),
        }
    }
}

/// `step` is what the caller is told where `planned` is what is to happen.
pub open spec fn tells(step: OpenStep, planned: Plan) -> bool {
    match planned {
        Plan::PassThrough => step is PassThrough,
        Plan::Block => step is Blocked,
        Plan::Install(_) => step is Installed,
        Plan::Transcode(bytes) => step matches OpenStep::Transcode { bytes: given } && given@
            == bytes,
        Plan::Resolve(location, material) => step matches OpenStep::Resolve {
            location: given,
            material: flag,
        } && given@ == location && flag == material,
    }
}

/// The registry after the first step of an open: it has gained a fresh
/// buffer under the handle where bytes were installed, and is as before
/// otherwise.
pub open spec fn registry_after(
    before: Map<HandleId, BufferState>,
    handle: Option<HandleId>,
    planned: Plan,
) -> Map<HandleId, BufferState> {
    match planned {
        Plan::Install(bytes) => before.insert(handle.unwrap(), BufferState::fresh(bytes)),
        _ => before,
    }
}

/// Decides what becomes of the open of `path`, which the archive answered
/// with `handle` (`None` where it failed), and installs the payload where
/// a rule asks for one that needs no further step.
pub fn open(
    registry: &mut Registry,
    features: &Features,
    catalog: &PayloadCatalog,
    handle: Option<HandleId>,
    path: &[u8],
) -> (r: OpenStep)
    ensures
        tells(r, plan(*features, *catalog, handle, path@)),
        final(registry)@ == registry_after(
            old(registry)@,
            handle,
            plan(*features, *catalog, handle, path@),
        ),
{
    let id: HandleId = match handle {
        Some(id) => id,
        None => {
            return OpenStep::PassThrough;
        },
    };
    let name: &[u8] = match file_name(path) {
        Some(name) => name,
        None => {
            return OpenStep::PassThrough;
        },
    };
    let material: bool = ends_with(name, ".material.bin".as_bytes());
    let mut index: usize = 0;
    while index < RULE_COUNT
        invariant
            index <= RULE_COUNT,
            rule_order().len() == RULE_COUNT,
            handle == Some(id),
            spec_file_name(path@) == Some(name@),
            material == is_material(path@),
            first_applicable(*features, path@) == first_applicable_from(
                *features,
                path@,
                index as int,
            ),
            *registry == *old(registry),
        decreases RULE_COUNT - index,
    {
        let rule: Rule = match rule_at(index) {
            Some(rule) => rule,
            None => {
                return OpenStep::PassThrough;
            },
        };
        match evaluate_named(rule, features, catalog, path, Some(name)) {
            Outcome::NoMatch => {},
            Outcome::Block => {
                return OpenStep::Blocked;
            },
            Outcome::Replace(payload) => {
                let bytes: Vec<u8> = to_vec(payload);
                if material {
                    return OpenStep::Transcode { bytes };
                }
                registry.register(id, VirtualBuffer::new(bytes));
                return OpenStep::Installed;
            },
            Outcome::Resolve(location) => {
                return OpenStep::Resolve { location, material };
            },
        }
        index += 1;
    }
    OpenStep::PassThrough
}

/// What the resource packs hold, read off what their loader did.
///
/// `loaded` is what the loader wrote, `None` where the loader is not ready
/// yet. The loader has no other way to say that it found nothing than to
/// write nothing: both count as a miss.
pub fn resolve(loaded: Option<Vec<u8>>) -> (r: Option<Vec<u8>>)
    ensures
        r == match loaded {
            Some(bytes) => if bytes@.len() > 0 {
                Some(bytes)
            } else {
                None
            },
            None => None,
        },
{
    match loaded {
        Some(bytes) => if bytes.len() > 0 {
            Some(bytes)
        } else {
            None
        },
        None => None,
    }
}

/// Goes on with an open after the resource packs were asked: `found` is
/// what they hold, `None` where they hold nothing or cannot be asked yet.
///
/// Nothing found leaves the handle to the archive. What was found is
/// installed, unless it is a material file, which goes through the
/// transcoder first.
pub fn on_resolved(
    registry: &mut Registry,
    handle: HandleId,
    material: bool,
    found: Option<Vec<u8>>,
) -> (r: OpenStep)
    ensures
        match found {
            None => r is PassThrough && final(registry)@ == old(registry)@,
            Some(bytes) => if material {
                &&& r matches OpenStep::Transcode { bytes: given }
                &&& given@ == bytes@
                &&& final(registry)@ == old(registry)@
            } else {
                &&& r is Installed
                &&& final(registry)@ == old(registry)@.insert(
                    handle,
                    BufferState::fresh(bytes@),
                )
            },
        },
{
    match found {
        None => OpenStep::PassThrough,
        Some(bytes) => {
            if material {
                OpenStep::Transcode { bytes }
            } else {
                registry.register(handle, VirtualBuffer::new(bytes));
                OpenStep::Installed
            }
        },
    }
}

/// What is installed after the transcoder has seen `given`: what it made
/// of it, or `given` itself where it made nothing.
pub open spec fn settled(given: Seq<u8>, rewritten: Option<Seq<u8>>) -> Seq<u8> {
    match rewritten {
        Some(bytes) => bytes,
        None => given,
    }
}

/// Ends an open after the transcoder was run on `given`: `rewritten` is
/// its answer, `None` where the bytes are to stay as they are.
pub fn on_transcoded(
    registry: &mut Registry,
    handle: HandleId,
    given: Vec<u8>,
    rewritten: Option<Vec<u8>>,
) -> (r: OpenStep)
    ensures
        r is Installed,
        final(registry)@ == old(registry)@.insert(
            handle,
            BufferState::fresh(
                settled(
                    given@,
                    match rewritten {
                        Some(bytes) => Some(bytes@),
                        None => None,
                    },
                ),
            ),
        ),
{
    let bytes: Vec<u8> = match rewritten {
        Some(bytes) => bytes,
        None => given,
    };
    registry.register(handle, VirtualBuffer::new(bytes));
    OpenStep::Installed
}

/// Where a rule that hides assets applies to a path with a file name, the
/// open is blocked and the registry stays as it is, whatever other rules
/// apply as well.
pub proof fn lemma_block_wins(
    features: Features,
    catalog: PayloadCatalog,
    handle: HandleId,
    path: Seq<u8>,
    rule: Rule,
    before: Map<HandleId, BufferState>,
)
    requires
        spec_file_name(path) is Some,
        strategy(rule) is Block,
        applies(rule, features, path),
    ensures
        plan(features, catalog, Some(handle), path) == Plan::Block,
        registry_after(before, Some(handle), plan(features, catalog, Some(handle), path))
            == before,
{
    lemma_first_applicable(features, path);
    let decides = first_applicable(features, path).unwrap();
    assert(priority(decides) <= priority(rule));
}

/// Where exactly one rule applies to a path with a file name, that rule
/// decides, and the open is carried out as it says.
///
/// A rule with a payload has the payload installed as it is, in a fresh
/// buffer under the handle; where the file is a material file, the payload
/// goes through the transcoder first, and is installed as it is where the
/// transcoder makes nothing of it. A rule that takes the content from the
/// resource packs asks for the rewritten path.
pub proof fn lemma_single_rule_decides(
    features: Features,
    catalog: PayloadCatalog,
    handle: HandleId,
    path: Seq<u8>,
    rule: Rule,
    before: Map<HandleId, BufferState>,
)
    requires
        spec_file_name(path) is Some,
        applies(rule, features, path),
        forall|other: Rule| other != rule ==> !applies(other, features, path),
    ensures
        first_applicable(features, path) == Some(rule),
        plan(features, catalog, Some(handle), path) == carried_out(rule, catalog, path),
        match strategy(rule) {
            Strategy::Block => true,
            Strategy::Static(target) => if is_material(path) {
                &&& plan(features, catalog, Some(handle), path) == Plan::Transcode(
                    catalog.bytes_of(target),
                )
                &&& settled(catalog.bytes_of(target), None) == catalog.bytes_of(target)
            } else {
                registry_after(before, Some(handle), plan(features, catalog, Some(handle), path))
                    == before.insert(handle, BufferState::fresh(catalog.bytes_of(target)))
            },
            Strategy::Resolve(rewrite) => {
                &&& rewritten(path, rewrite) is Some
                &&& plan(features, catalog, Some(handle), path) == Plan::Resolve(
                    rewritten(path, rewrite).unwrap(),
                    is_material(path),
                )
            },
        },
{
    lemma_first_applicable(features, path);
}

/// The splash texts are replaced whatever the switches say: a path whose
/// file name is `splashes.json`, and which no rule hides, has the splash
/// payload installed as it is.
pub proof fn lemma_splashes_whatever_the_switches(
    features: Features,
    catalog: PayloadCatalog,
    handle: HandleId,
    path: Seq<u8>,
)
    requires
        file_is(path, "splashes.json"),
        !applies(Rule::PersonaBlock, features, path),
        !applies(Rule::ParticlesBlock, features, path),
    ensures
        plan(features, catalog, Some(handle), path) == Plan::Install(
            catalog.bytes_of(Payload::Splashes),
        ),
{
    lemma_first_applicable(features, path);
    let decides = first_applicable(features, path).unwrap();
    assert(applies(Rule::Splashes, features, path));
    assert(priority(decides) <= priority(Rule::Splashes));
    assert(!is_material(path)) by {
        reveal_strlit("splashes.json");
        reveal_strlit(".material.bin");
        let name = "splashes.json";
        let suffix = ".material.bin";
        is_ascii_chars_encode_utf8(name@);
        is_ascii_chars_encode_utf8(suffix@);
        assert(name.spec_bytes()[0] == 115u8);
        assert(suffix.spec_bytes()[0] == 46u8);
        if is_suffix(name.spec_bytes(), suffix.spec_bytes()) {
            assert(name.spec_bytes().subrange(0, 13)[0] == suffix.spec_bytes()[0]);
        }
    }
}

} // verus!
