//! The materializer's decision: given what the file system reports about
//! the note and its template, decide whether the note must be created and
//! with which bytes. The caller performs the probing and the exclusive
//! creation; every decision between the probes is taken here.

use vstd::prelude::*;

use crate::errors::{ConfigError, Status};

verus! {

/// What probing the configured template path found: the path itself, and
/// the file's bytes when the path named a regular file.
#[derive(Debug, Clone)]
pub struct TemplateProbe {
    pub path: String,
    pub contents: Option<Vec<u8>>,
}

/// The minimal placeholder body a note is created with when no template
/// is configured.
pub open spec fn placeholder_note() -> Seq<u8> {
    seq![72u8, 101u8, 108u8, 108u8, 111u8, 44u8, 32u8, 119u8, 111u8, 114u8, 108u8, 100u8, 33u8]
}

/// The decision the materializer owes for a probed note: nothing to do
/// when the note exists; otherwise the bytes to create it with — the
/// template's bytes when the template was found, the placeholder when
/// none is configured — and the invalid-template failure when a
/// configured template is not a regular file.
pub open spec fn spec_check_periodical(note_exists: bool, template: Option<TemplateProbe>) -> Result<
    Option<Seq<u8>>,
    Status,
> {
    if note_exists {
        Ok(None)
    } else {
        match template {
            None => Ok(Some(placeholder_note())),
            Some(probe) => match probe.contents {
                Some(bytes) => Ok(Some(bytes@)),
                None => Err(Status::ConfigError(ConfigError::InvalidFile(probe.path))),
            },
        }
    }
}

/// The view of an executable decision, for comparing it with the
/// specification-level one.
pub open spec fn decision_view(r: Result<Option<Vec<u8>>, Status>) -> Result<
    Option<Seq<u8>>,
    Status,
> {
    match r {
        Ok(Some(v)) => Ok(Some(v@)),
        Ok(None) => Ok(None),
        Err(e) => Err(e),
    }
}

/// The placeholder body as bytes.
pub fn placeholder_bytes() -> (r: Vec<u8>)
    ensures
        r@ == placeholder_note(),
{
    let mut v: Vec<u8> = Vec::new();
    v.push(72u8);
    v.push(101u8);
    v.push(108u8);
    v.push(108u8);
    v.push(111u8);
    v.push(44u8);
    v.push(32u8);
    v.push(119u8);
    v.push(111u8);
    v.push(114u8);
    v.push(108u8);
    v.push(100u8);
    v.push(33u8);
    proof {
        assert(v@ =~= placeholder_note());
    }
    v
}

/// Decides what a probed periodical note needs: `Ok(None)` to leave an
/// existing note untouched, `Ok(Some(bytes))` to create it with exactly
/// those bytes, and the invalid-template error when a configured template
/// is not a regular file — in which case nothing is to be created.
pub fn check_periodical(note_exists: bool, template: Option<TemplateProbe>) -> (r: Result<
    Option<Vec<u8>>,
    Status,
>)
    ensures
        decision_view(r) == spec_check_periodical(note_exists, template),
{
    if note_exists {
        return Ok(None);
    }
    match template {
        None => Ok(Some(placeholder_bytes())),
        Some(probe) => match probe.contents {
            Some(bytes) => Ok(Some(bytes)),
            None => Err(Status::ConfigError(ConfigError::InvalidFile(probe.path))),
        },
    }
}

/// Materializing is idempotent: once the note exists, the decision is a
/// no-op whatever the template probe reports, so a second call never
/// alters the note's content.
pub proof fn lemma_materialize_idempotent(template: Option<TemplateProbe>)
    ensures
        spec_check_periodical(true, template) == Ok::<Option<Seq<u8>>, Status>(None),
{
}

/// A configured template that is not a regular file fails the decision:
/// nothing is written in that case.
pub proof fn lemma_missing_template_fails(note_exists: bool, probe: TemplateProbe)
    requires
        !note_exists,
        probe.contents is None,
    ensures
        spec_check_periodical(note_exists, Some(probe)) == Err::<Option<Seq<u8>>, Status>(
            Status::ConfigError(ConfigError::InvalidFile(probe.path)),
        ),
{
}

} // verus!
