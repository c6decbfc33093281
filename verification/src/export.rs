//! What goes out of the engine for keeping: the images of the sessions,
//! each under a file name of its own, and the log of the sessions with the
//! images taken out.

use crate::lifecycle::listed;
use crate::payload::is_image_url;
use crate::session::{Session, SessionView};
use crate::text::{decimal, is_digit, lemma_decimal, owned, starts_with, to_decimal};
use vstd::prelude::*;
use vstd::string::*;

verus! {

/// What stands in the log in place of an image.
pub const REDACTED_IMAGE: &'static str = "[IMAGE_DATA_REMOVED]";

/// An image to write to a file.
#[derive(Debug)]
pub struct ImageExport {
    /// The file to write, with its directory.
    pub filename: String,
    /// The image, as the data URL that the session holds.
    pub data_url: String,
}

impl View for ImageExport {
    type V = (Seq<char>, Seq<char>);

    open spec fn view(&self) -> (Seq<char>, Seq<char>) {
        (self.filename@, self.data_url@)
    }
}

impl DeepView for ImageExport {
    type V = (Seq<char>, Seq<char>);

    open spec fn deep_view(&self) -> (Seq<char>, Seq<char>) {
        self@
    }
}

/// A session as the log holds it: the image, where there is one, gives
/// way to a fixed mark; all else stays.
pub open spec fn redacted(s: SessionView) -> SessionView {
    SessionView {
        image: match s.image {
            Some(_) => Some(REDACTED_IMAGE@),
            None => None,
        },
        ..s
    }
}

/// The sessions that the log holds: the archive, followed by the active
/// session where that has a prompt, each without its image.
pub open spec fn log_entries(archive: Seq<SessionView>, active: SessionView) -> Seq<SessionView> {
    listed(archive, active).map_values(|s: SessionView| redacted(s))
}

/// The name of the log file written at `timestamp`.
pub open spec fn log_filename(timestamp: Seq<char>) -> Seq<char> {
    "session_log_"@ + timestamp + ".json"@
}

/// The directory for the images written at `timestamp`.
pub open spec fn export_dir(timestamp: Seq<char>) -> Seq<char> {
    "saved_images_"@ + timestamp
}

/// The file for the image of the archived session at `index`.
pub open spec fn saved_image_name(dir: Seq<char>, index: nat, timestamp: Seq<char>) -> Seq<char> {
    dir + "/session_"@ + decimal(index) + "_"@ + timestamp + ".png"@
}

/// The file for the image of the active session.
pub open spec fn active_image_name(dir: Seq<char>, timestamp: Seq<char>) -> Seq<char> {
    dir + "/active_session_"@ + timestamp + ".png"@
}

/// Whether a session has an image to write: its image text is the data URL
/// of an image.
pub open spec fn exportable(s: SessionView) -> bool {
    s.image matches Some(url) && is_image_url(url)
}

/// The images of the archived sessions that have one, in archive order,
/// each under the name that its place in the archive gives it.
pub open spec fn saved_exports(archive: Seq<SessionView>, dir: Seq<char>, timestamp: Seq<char>) -> Seq<
    (Seq<char>, Seq<char>),
>
    decreases archive.len(),
{
    if archive.len() == 0 {
        Seq::empty()
    } else {
        let before = saved_exports(archive.drop_last(), dir, timestamp);
        if exportable(archive.last()) {
            before.push(
                (
                    saved_image_name(dir, (archive.len() - 1) as nat, timestamp),
                    archive.last().image->0,
                ),
            )
        } else {
            before
        }
    }
}

/// The images to write at `timestamp`: those of the archive, then that of
/// the active session.
pub open spec fn exports(archive: Seq<SessionView>, active: SessionView, timestamp: Seq<char>) -> Seq<
    (Seq<char>, Seq<char>),
> {
    let dir = export_dir(timestamp);
    if exportable(active) {
        saved_exports(archive, dir, timestamp).push(
            (active_image_name(dir, timestamp), active.image->0),
        )
    } else {
        saved_exports(archive, dir, timestamp)
    }
}

/// The number of `true` among `outcomes`.
pub open spec fn successes(outcomes: Seq<bool>) -> nat
    decreases outcomes.len(),
{
    if outcomes.len() == 0 {
        0
    } else {
        successes(outcomes.drop_last()) + if outcomes.last() {
            1nat
        } else {
            0nat
        }
    }
}

/// What is reported after the images were written.
pub open spec fn export_summary(saved: nat, dir: Seq<char>) -> Seq<char> {
    "✅ Successfully saved "@ + decimal(saved) + " images to folder: "@ + dir
}

/// A session as the log holds it.
pub fn redact(session: &Session) -> (r: Session)
    ensures
        r@ == redacted(session@),
{
    let mut r = session.clone();
    if r.image.is_some() {
        r.image = Some(owned(REDACTED_IMAGE));
    }
    r
}

/// The sessions that the log holds. One entry per session, whatever a
/// session holds: nothing is left out and nothing fails.
pub fn session_log_entries(saved_sessions: &Vec<Session>, active_session: &Session) -> (r: Vec<
    Session,
>)
    ensures
        r.deep_view() == log_entries(saved_sessions.deep_view(), active_session@),
{
    let mut r: Vec<Session> = Vec::new();
    let mut i: usize = 0;
    while i < saved_sessions.len()
        invariant
            i <= saved_sessions.len(),
            r.len() == i,
            forall|j: int|
                0 <= j < i ==> #[trigger] r.deep_view()[j] == redacted(
                    saved_sessions.deep_view()[j],
                ),
        decreases saved_sessions.len() - i,
    {
        let entry = redact(&saved_sessions[i]);
        let ghost before = r.deep_view();
        r.push(entry);
        assert(r.deep_view() =~= before.push(entry@));
        i += 1;
    }
    if active_session.prompt.is_some() {
        let entry = redact(active_session);
        let ghost before = r.deep_view();
        r.push(entry);
        assert(r.deep_view() =~= before.push(entry@));
    }
    assert(r.deep_view() =~= log_entries(saved_sessions.deep_view(), active_session@));
    r
}

/// The name of the log file written at `timestamp`.
pub fn session_log_filename(timestamp: &str) -> (r: String)
    ensures
        r@ == log_filename(timestamp@),
{
    let mut r = owned("session_log_");
    r.append(timestamp);
    r.append(".json");
    r
}

/// What is reported once the log stands in `filename`.
pub fn session_log_saved(filename: &str) -> (r: String)
    ensures
        r@ == "✅ Session log saved to: "@ + filename@,
{
    let mut r = owned("✅ Session log saved to: ");
    r.append(filename);
    r
}

/// What is reported when the log could not be written, with the reason.
pub fn session_log_failed(reason: &str) -> (r: String)
    ensures
        r@ == "❌ Error saving session log: "@ + reason@,
{
    let mut r = owned("❌ Error saving session log: ");
    r.append(reason);
    r
}

/// The directory for the images written at `timestamp`.
pub fn image_export_dir(timestamp: &str) -> (r: String)
    ensures
        r@ == export_dir(timestamp@),
{
    let mut r = owned("saved_images_");
    r.append(timestamp);
    r
}

/// Whether the session has an image to write.
pub fn has_exportable_image(session: &Session) -> (r: bool)
    ensures
        r == exportable(session@),
{
    match &session.image {
        Some(url) => starts_with(url.as_str(), "data:image"),
        None => false,
    }
}

fn export_of(session: &Session, filename: String) -> (r: ImageExport)
    requires
        exportable(session@),
    ensures
        r@ == (filename@, session@.image->0),
{
    let data_url = match &session.image {
        Some(url) => url.clone(),
        None => String::new(),
    };
    ImageExport { filename, data_url }
}

/// The images to write at `timestamp`, each with its file name: those of
/// the archived sessions, named by their place in the archive, then that
/// of the active session. A session without an image is passed over.
pub fn image_exports(saved_sessions: &Vec<Session>, active_session: &Session, timestamp: &str) -> (r:
    Vec<ImageExport>)
    ensures
        r.deep_view() == exports(saved_sessions.deep_view(), active_session@, timestamp@),
{
    let dir = image_export_dir(timestamp);
    let ghost archive = saved_sessions.deep_view();
    let mut r: Vec<ImageExport> = Vec::new();
    let mut i: usize = 0;
    assert(archive.take(0) =~= Seq::empty());
    assert(r.deep_view() =~= Seq::empty());
    while i < saved_sessions.len()
        invariant
            i <= saved_sessions.len(),
            archive == saved_sessions.deep_view(),
            dir@ == export_dir(timestamp@),
            r.deep_view() == saved_exports(archive.take(i as int), dir@, timestamp@),
        decreases saved_sessions.len() - i,
    {
        let session = &saved_sessions[i];
        proof {
            assert(archive.take(i + 1).drop_last() =~= archive.take(i as int));
            assert(archive.take(i + 1).last() == session@);
        }
        if has_exportable_image(session) {
            let mut filename = dir.clone();
            filename.append("/session_");
            filename.append(to_decimal(i as u64).as_str());
            filename.append("_");
            filename.append(timestamp);
            filename.append(".png");
            let ghost before = r.deep_view();
            let export = export_of(session, filename);
            r.push(export);
            assert(r.deep_view() =~= before.push(export@));
        }
        i += 1;
    }
    assert(archive.take(saved_sessions.len() as int) =~= archive);
    if has_exportable_image(active_session) {
        let mut filename = dir.clone();
        filename.append("/active_session_");
        filename.append(timestamp);
        filename.append(".png");
        let ghost before = r.deep_view();
        let export = export_of(active_session, filename);
        r.push(export);
        assert(r.deep_view() =~= before.push(export@));
    }
    r
}

/// What is reported after the images were written: how many of the writes
/// succeeded, and where the files stand. `outcomes` holds, for each image,
/// whether it was written; a write that failed does not keep the others
/// from being counted.
pub fn image_export_summary(outcomes: &Vec<bool>, output_dir: &str) -> (r: String)
    ensures
        r@ == export_summary(successes(outcomes@), output_dir@),
{
    let mut saved: usize = 0;
    let mut i: usize = 0;
    while i < outcomes.len()
        invariant
            i <= outcomes.len(),
            saved == successes(outcomes@.take(i as int)),
            saved <= i,
        decreases outcomes.len() - i,
    {
        proof {
            assert(outcomes@.take(i + 1).drop_last() =~= outcomes@.take(i as int));
        }
        if outcomes[i] {
            saved += 1;
        }
        i += 1;
    }
    assert(outcomes@.take(outcomes.len() as int) =~= outcomes@);
    let mut r = owned("✅ Successfully saved ");
    r.append(to_decimal(saved as u64).as_str());
    r.append(" images to folder: ");
    r.append(output_dir);
    r
}

/// The log has one entry for each archived session and one for an active
/// session that has a prompt, in that order, and no entry holds an image: where a
/// session has one, the entry holds the fixed mark, and all else is as the
/// session has it.
pub proof fn lemma_log_entries(archive: Seq<SessionView>, active: SessionView)
    ensures
        log_entries(archive, active).len() == archive.len() + if active.prompt is Some {
            1nat
        } else {
            0nat
        },
        forall|i: int|
            0 <= i < archive.len() ==> #[trigger] log_entries(archive, active)[i] == redacted(
                archive[i],
            ),
        forall|i: int|
            0 <= i < log_entries(archive, active).len() ==> {
                let entry = #[trigger] log_entries(archive, active)[i];
                let session = listed(archive, active)[i];
                &&& entry.image == if session.image is Some {
                    Some(REDACTED_IMAGE@)
                } else {
                    None
                }
                &&& (SessionView { image: session.image, ..entry }) == session
            },
{
}

/// The places in the archive of the sessions that have an image to write,
/// in ascending order.
pub open spec fn exportable_places(archive: Seq<SessionView>) -> Seq<nat>
    decreases archive.len(),
{
    if archive.len() == 0 {
        Seq::empty()
    } else if exportable(archive.last()) {
        exportable_places(archive.drop_last()).push((archive.len() - 1) as nat)
    } else {
        exportable_places(archive.drop_last())
    }
}

/// Archived sessions at different places get different file names, and
/// none gets the file name of the active session.
pub proof fn lemma_image_names_differ(dir: Seq<char>, i: nat, j: nat, timestamp: Seq<char>)
    ensures
        i != j ==> saved_image_name(dir, i, timestamp) != saved_image_name(dir, j, timestamp),
        saved_image_name(dir, i, timestamp) != active_image_name(dir, timestamp),
{
    reveal_strlit("/session_");
    reveal_strlit("/active_session_");
    reveal_strlit("_");
    let head = dir + "/session_"@;
    let first = saved_image_name(dir, i, timestamp);
    let active = active_image_name(dir, timestamp);
    assert(first[dir.len() as int + 1] == 's');
    assert(active[dir.len() as int + 1] == 'a');
    if i != j {
        let second = saved_image_name(dir, j, timestamp);
        let a = decimal(i);
        let b = decimal(j);
        lemma_decimal(i);
        lemma_decimal(j);
        if first == second {
            let at = head.len() as int;
            assert forall|k: int| 0 <= k < a.len() && k < b.len() implies a[k] == b[k] by {
                assert(first[at + k] == a[k]);
                assert(second[at + k] == b[k]);
            }
            if a.len() == b.len() {
                assert(a =~= b);
            } else if a.len() < b.len() {
                assert(first[at + a.len()] == '_');
                assert(second[at + a.len()] == b[a.len() as int]);
                assert(is_digit(b[a.len() as int]));
            } else {
                assert(second[at + b.len()] == '_');
                assert(first[at + b.len()] == a[b.len() as int]);
                assert(is_digit(a[b.len() as int]));
            }
        }
    }
}

/// The images of the archive go to files named by the places of their
/// sessions, which ascend.
pub proof fn lemma_saved_exports(archive: Seq<SessionView>, dir: Seq<char>, timestamp: Seq<char>)
    ensures
        saved_exports(archive, dir, timestamp).len() == exportable_places(archive).len(),
        forall|p: int|
            0 <= p < exportable_places(archive).len() ==> {
                let place = #[trigger] exportable_places(archive)[p];
                &&& place < archive.len()
                &&& exportable(archive[place as int])
                &&& saved_exports(archive, dir, timestamp)[p] == (
                    saved_image_name(dir, place, timestamp),
                    archive[place as int].image->0,
                )
            },
        forall|p: int, q: int|
            0 <= p < q < exportable_places(archive).len() ==> exportable_places(archive)[p]
                < exportable_places(archive)[q],
    decreases archive.len(),
{
    if archive.len() > 0 {
        let rest = archive.drop_last();
        lemma_saved_exports(rest, dir, timestamp);
        let places = exportable_places(archive);
        assert forall|p: int| 0 <= p < places.len() implies {
            let place = #[trigger] places[p];
            &&& place < archive.len()
            &&& exportable(archive[place as int])
            &&& saved_exports(archive, dir, timestamp)[p] == (
                saved_image_name(dir, place, timestamp),
                archive[place as int].image->0,
            )
        } by {
            if p < exportable_places(rest).len() {
                let place = exportable_places(rest)[p];
                assert(places[p] == place);
                assert(rest[place as int] == archive[place as int]);
            }
        }
        assert forall|p: int, q: int| 0 <= p < q < places.len() implies places[p] < places[q] by {
            if q < exportable_places(rest).len() {
                assert(places[p] == exportable_places(rest)[p]);
                assert(places[q] == exportable_places(rest)[q]);
            } else {
                assert(places[p] == exportable_places(rest)[p]);
            }
        }
    }
}

/// Every image is written to a file of its own: no two of the exports
/// share a file name.
pub proof fn lemma_exports_to_distinct_files(
    archive: Seq<SessionView>,
    active: SessionView,
    timestamp: Seq<char>,
)
    ensures
        forall|p: int, q: int|
            0 <= p < q < exports(archive, active, timestamp).len() ==> (#[trigger] exports(
                archive,
                active,
                timestamp,
            )[p]).0 != (#[trigger] exports(archive, active, timestamp)[q]).0,
{
    let dir = export_dir(timestamp);
    let all = exports(archive, active, timestamp);
    let saved = saved_exports(archive, dir, timestamp);
    let places = exportable_places(archive);
    lemma_saved_exports(archive, dir, timestamp);
    assert forall|p: int, q: int| 0 <= p < q < all.len() implies (#[trigger] all[p]).0 != (
    #[trigger] all[q]).0 by {
        let first = places[p];
        assert(all[p] == saved[p]);
        if q < saved.len() {
            let second = places[q];
            assert(all[q] == saved[q]);
            lemma_image_names_differ(dir, first, second, timestamp);
        } else {
            lemma_image_names_differ(dir, first, first, timestamp);
        }
    }
}

} // verus!
