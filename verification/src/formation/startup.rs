//! What a data directory says about how its daemon starts.

use vstd::prelude::*;
use vstd::string::*;

use crate::text;
use crate::text::same_bytes;

verus! {

/// The formation markers of a manifest, in microseconds since the Unix epoch.
#[derive(Debug, Clone, Copy, PartialEq, Eq, Structural)]
pub struct FormationMarks {
    pub intent_at_us: Option<i64>,
    pub complete_at_us: Option<i64>,
}

impl FormationMarks {
    /// Whether a formation was begun and never completed.
    pub open spec fn partial(self) -> bool {
        self.intent_at_us is Some && self.complete_at_us is None
    }

    /// The markers of a directory that was never formed.
    pub fn none() -> (r: FormationMarks)
        ensures
            r.intent_at_us is None,
            r.complete_at_us is None,
    {
        FormationMarks { intent_at_us: None, complete_at_us: None }
    }

    /// Whether a formation was begun and never completed.
    pub fn failed(&self) -> (r: bool)
        ensures
            r == self.partial(),
    {
        self.intent_at_us.is_some() && self.complete_at_us.is_none()
    }
}

/// The identity a manifest is stamped with.
#[derive(Debug, Clone)]
pub struct ManifestStamp {
    pub history_id: Vec<u8>,
    pub formation: FormationMarks,
}

/// How a daemon must start.
#[derive(Debug, Clone)]
pub enum StartupState {
    /// No manifest: a new instance.
    Empty,
    /// A manifest without a dangling intent: resume under the stamped history.
    Resume { history_id: Vec<u8> },
    /// An intent without its marker: stop.
    FormationFailed { intent_at_us: i64 },
}

/// Classify a start by the directory's stamp. The store is not opened: a
/// partial formation must never have consensus brought up on it.
pub fn inspect(stamp: &Option<ManifestStamp>) -> (r: (StartupState, FormationMarks))
    ensures
        match *stamp {
            None => r.0 is Empty && r.1.intent_at_us is None && r.1.complete_at_us is None,
            Some(stamp) => r.1 == stamp.formation && if stamp.formation.partial() {
                r.0 == (StartupState::FormationFailed {
                    intent_at_us: stamp.formation.intent_at_us->0,
                })
            } else {
                r.0 matches StartupState::Resume { history_id } && history_id@
                    == stamp.history_id@
            },
        },
{
    match stamp {
        None => (StartupState::Empty, FormationMarks::none()),
        Some(stamp) => {
            if stamp.formation.failed() {
                let intent_at_us: i64 = match stamp.formation.intent_at_us {
                    Some(at) => at,
                    None => 0,
                };
                (StartupState::FormationFailed { intent_at_us }, stamp.formation)
            } else {
                (
                    StartupState::Resume { history_id: crate::wire::copy_bytes(&stamp.history_id) },
                    stamp.formation,
                )
            }
        },
    }
}

/// The history a resumed directory serves.
///
/// A directory without a completion marker recorded the configured cluster's
/// bytes as its history, so a mismatch is a wrong volume. A formed directory
/// carries a minted history that configuration cannot know: the stamp is the
/// authority.
pub fn resumed_history(
    data_dir: &str,
    config_bytes: &Vec<u8>,
    stamped: &Vec<u8>,
    marks: FormationMarks,
) -> (r: Result<Vec<u8>, String>)
    ensures
        if marks.complete_at_us is None && stamped@ != config_bytes@ {
            r matches Err(e) && e@ == "the data directory "@ + data_dir@
                + " is stamped for history "@ + text::hex_of(stamped@)
                + " but this config's cluster_id derives "@ + text::hex_of(config_bytes@)
                + " — wrong volume or cross-cluster mixup; refusing to start (ADR 0016)"@
        } else {
            r matches Ok(h) && h@ == stamped@
        },
{
    if marks.complete_at_us.is_none() && !same_bytes(stamped.as_slice(), config_bytes.as_slice()) {
        return Err(
            "the data directory ".to_owned().concat(data_dir).concat(
                " is stamped for history ",
            ).concat(text::hex(stamped.as_slice()).as_str()).concat(
                " but this config's cluster_id derives ",
            ).concat(text::hex(config_bytes.as_slice()).as_str()).concat(
                " — wrong volume or cross-cluster mixup; refusing to start (ADR 0016)",
            ),
        );
    }
    Ok(crate::wire::copy_bytes(stamped))
}

/// A directory without a stamp is a new instance; one with an intent and no
/// marker is stopped at that intent; any other resumes the history it is
/// stamped for.
pub proof fn a_start_is_what_the_stamp_says(
    stamp: Option<ManifestStamp>,
    r: (StartupState, FormationMarks),
)
    requires
        call_ensures(inspect, (&stamp,), r),
    ensures
        r.0 is Empty <==> stamp is None,
        r.0 is FormationFailed <==> stamp is Some && stamp->0.formation.intent_at_us is Some
            && stamp->0.formation.complete_at_us is None,
        r.0 matches StartupState::FormationFailed { intent_at_us } ==> Some(intent_at_us)
            == stamp->0.formation.intent_at_us,
        r.0 matches StartupState::Resume { history_id } ==> history_id@ == stamp->0.history_id@,
        stamp matches Some(s) ==> r.1 == s.formation,
        stamp is None ==> r.1.intent_at_us is None && r.1.complete_at_us is None,
{
}

/// A formation failed exactly when it was begun and not completed.
pub proof fn a_formation_fails_between_its_marks(marks: FormationMarks, r: bool)
    requires
        call_ensures(FormationMarks::failed, (&marks,), r),
    ensures
        r <==> marks.intent_at_us is Some && marks.complete_at_us is None,
{
}

/// A resumed directory serves the history it is stamped for or nothing, and
/// nothing only where it was never marked complete and configuration derives
/// another.
pub proof fn only_the_stamped_history_is_resumed(
    data_dir: &str,
    config_bytes: Vec<u8>,
    stamped: Vec<u8>,
    marks: FormationMarks,
    r: Result<Vec<u8>, String>,
)
    requires
        call_ensures(resumed_history, (data_dir, &config_bytes, &stamped, marks), r),
    ensures
        r matches Ok(h) ==> h@ == stamped@,
        r is Err <==> marks.complete_at_us is None && stamped@ != config_bytes@,
{
}

} // verus!
