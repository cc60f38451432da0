//! The daily upload of a diagnostic log: when one is due, which log it takes and what it
//! sends.

use crate::json::{
    empty_object, no_fields, no_members, object_members, put, render_in_order, rendered_in_order,
    JsonInput, JsonNode,
};
use crate::requests::{
    add_field, add_text, and_text, empty_body, put_optional, put_text, with_optional, with_text,
    HttpMethod, HttpRequest, RequestView,
};
use crate::text::{
    blank, borrowed, borrowed_view, decode_lossy, is_blank, joined,
    lemma_blank_iff_trimmed_empty, lossy_text, lowercase, lowercased, optional_view, trimmed,
    without_trailing,
};
use crate::web::join_url;
use vstd::prelude::*;
use vstd::slice::slice_subrange;
use vstd::string::*;

verus! {

/// A day, in nanoseconds. A request for a log goes before it.
pub const MIN_UPLOAD_INTERVAL_NANOS: u128 = 86_400_000_000_000;

/// How much of a log is sent, counted from its end.
pub const MAX_LOG_BYTES: u64 = 2_097_152;

pub const MARKER_FILE: &'static str = "debug_log_last_upload.marker";

pub const DIAG_FILE_PATH: &'static str = "C:\\ProgramData\\rustdesk-ctrlaltdel-diag.txt";

/// Whether an upload is due: it was asked for, or the last one was a day ago. Where it is
/// not known how long ago that was, because there was none or the clock went back, one is
/// due.
pub fn should_upload(force: bool, since_last_nanos: Option<u128>) -> (r: bool)
    ensures
        r == (force || since_last_nanos is None || since_last_nanos->0
            >= MIN_UPLOAD_INTERVAL_NANOS),
{
    if force {
        return true;
    }
    match since_last_nanos {
        Some(elapsed) => elapsed >= MIN_UPLOAD_INTERVAL_NANOS,
        None => true,
    }
}

/// The position of the log that was written last, given when each one was; of several at
/// once the last of them. Nothing where there is none.
pub fn find_active_log_file(modified: &Vec<i128>) -> (r: Option<usize>)
    ensures
        r is None <==> modified@.len() == 0,
        r matches Some(index) ==> {
            &&& index < modified@.len()
            &&& forall|i: int| 0 <= i < modified@.len() ==> modified@[i] <= modified@[index as int]
            &&& forall|i: int|
                index < i < modified@.len() ==> modified@[i] < modified@[index as int]
        },
{
    let mut best: Option<usize> = None;
    let mut i: usize = 0;
    while i < modified.len()
        invariant
            i <= modified@.len(),
            best is None <==> i == 0,
            best matches Some(index) ==> {
                &&& index < i
                &&& forall|j: int| 0 <= j < i ==> modified@[j] <= modified@[index as int]
                &&& forall|j: int| index < j < i ==> modified@[j] < modified@[index as int]
            },
        decreases modified@.len() - i,
    {
        let later = match best {
            Some(index) => modified[i] >= modified[index],
            None => true,
        };
        if later {
            best = Some(i);
        }
        i += 1;
    }
    best
}

/// Where the tail of a log of `length` bytes begins: `max_bytes` before its end, or at its
/// beginning where it is no longer than that.
pub open spec fn tail_start(length: u64, max_bytes: u64) -> u64 {
    if length > max_bytes {
        (length - max_bytes) as u64
    } else {
        0
    }
}

/// Where the tail of a log begins.
pub fn log_tail_start(length: u64, max_bytes: u64) -> (r: u64)
    ensures
        r == tail_start(length, max_bytes),
        r <= length,
        length - r <= max_bytes,
{
    if length > max_bytes {
        length - max_bytes
    } else {
        0
    }
}

/// The bytes from position `at` on; none where there are not so many.
pub open spec fn bytes_from(bytes: Seq<u8>, at: int) -> Seq<u8> {
    if at <= bytes.len() {
        bytes.skip(at)
    } else {
        Seq::empty()
    }
}

/// The text of the tail of a log that had `length` bytes when it was opened. `bytes` are
/// those of the log from position `offset` on, which is not behind the tail's beginning.
/// What was written since belongs to the tail; bytes that are no text are replaced.
pub fn read_log_tail(bytes: &[u8], offset: u64, length: u64, max_bytes: u64) -> (r: String)
    requires
        offset <= tail_start(length, max_bytes),
    ensures
        r@ == lossy_text(bytes_from(bytes@, tail_start(length, max_bytes) - offset)),
{
    let skipped: u64 = log_tail_start(length, max_bytes) - offset;
    if skipped > bytes.len() as u64 {
        let none: Vec<u8> = Vec::new();
        proof {
            assert(none@ =~= Seq::<u8>::empty());
        }
        return decode_lossy(none.as_slice());
    }
    let tail = slice_subrange(bytes, skipped as usize, bytes.len());
    proof {
        assert(tail@ =~= bytes@.skip(skipped as int));
    }
    decode_lossy(tail)
}

/// The position of the first of the disks that is the system drive: its mount point is the
/// drive's name and a backslash, in any case.
pub fn system_drive_space(mount_points: &Vec<String>, system_drive: &str) -> (r: Option<usize>)
    ensures
        match r {
            Some(index) => {
                &&& index < mount_points@.len()
                &&& is_system_drive(mount_points@[index as int]@, system_drive@)
                &&& forall|i: int|
                    0 <= i < index ==> !is_system_drive(
                        (#[trigger] mount_points@[i])@,
                        system_drive@,
                    )
            },
            None => forall|i: int|
                0 <= i < mount_points@.len() ==> !is_system_drive(
                    (#[trigger] mount_points@[i])@,
                    system_drive@,
                ),
        },
{
    let wanted = lowercase(joined(system_drive, "\\").as_str());
    let mut i: usize = 0;
    while i < mount_points.len()
        invariant
            i <= mount_points@.len(),
            wanted@ == lowercased(system_drive@ + "\\"@),
            forall|j: int|
                0 <= j < i ==> !is_system_drive((#[trigger] mount_points@[j])@, system_drive@),
        decreases mount_points@.len() - i,
    {
        if lowercase(mount_points[i].as_str()) == wanted {
            return Some(i);
        }
        i += 1;
    }
    None
}

/// The mount point is that of the system drive.
pub open spec fn is_system_drive(mount_point: Seq<char>, system_drive: Seq<char>) -> bool {
    lowercased(mount_point) == lowercased(system_drive + "\\"@)
}

/// What is reported of the machine beyond the general system information.
pub struct HardwareFacts {
    pub architecture: String,
    pub client_reported_time: String,
    pub managed_build_number: u64,
    /// The build number and version of an update that waits.
    pub pending_managed_update: Option<(u64, String)>,
    pub manufacturer: Option<String>,
    pub model: Option<String>,
    pub uptime_seconds: Option<u64>,
    /// The size and the free space of the system drive, in bytes.
    pub system_drive: Option<(u64, u64)>,
}

/// The member of an update that waits; null where none does.
pub open spec fn pending_node(pending: Option<(u64, String)>) -> JsonNode {
    match pending {
        Some((build_number, version)) => JsonNode::Object(
            with_text(
                no_members().insert("build_number"@, JsonNode::Number(build_number)),
                "version"@,
                version@,
            ),
        ),
        None => JsonNode::Null,
    }
}

/// The system information with the facts about this machine. What is not known of it is
/// left out.
pub open spec fn hardware_members(
    system: Map<Seq<char>, JsonNode>,
    facts: HardwareFacts,
) -> Map<Seq<char>, JsonNode> {
    let members = with_text(system, "architecture"@, facts.architecture@);
    let members = with_text(members, "client_reported_time"@, facts.client_reported_time@);
    let members = members.insert(
        "managed_build_number"@,
        JsonNode::Number(facts.managed_build_number),
    );
    let members = members.insert(
        "pending_managed_update"@,
        pending_node(facts.pending_managed_update),
    );
    let members = with_optional(members, "manufacturer"@, optional_view(facts.manufacturer));
    let members = with_optional(members, "model"@, optional_view(facts.model));
    let members = match facts.uptime_seconds {
        Some(seconds) => members.insert("uptime_seconds"@, JsonNode::Number(seconds)),
        None => members,
    };
    match facts.system_drive {
        Some((total, available)) => members.insert(
            "system_drive_total_bytes"@,
            JsonNode::Number(total),
        ).insert("system_drive_available_bytes"@, JsonNode::Number(available)),
        None => members,
    }
}

/// Adds the facts about this machine to the system information.
pub fn gather_hardware_info(
    system: serde_json::Map<String, serde_json::Value>,
    facts: &HardwareFacts,
) -> (r: serde_json::Map<String, serde_json::Value>)
    ensures
        object_members(r) == hardware_members(object_members(system), *facts),
{
    let mut info = system;
    put_text(&mut info, "architecture", facts.architecture.as_str());
    put_text(&mut info, "client_reported_time", facts.client_reported_time.as_str());
    put(&mut info, "managed_build_number", JsonInput::Number(facts.managed_build_number));
    match &facts.pending_managed_update {
        Some((build_number, version)) => {
            let mut pending = empty_object();
            put(&mut pending, "build_number", JsonInput::Number(*build_number));
            put_text(&mut pending, "version", version.as_str());
            put(&mut info, "pending_managed_update", JsonInput::Object(pending));
        },
        None => put(&mut info, "pending_managed_update", JsonInput::Null),
    }
    put_optional(&mut info, "manufacturer", borrowed(&facts.manufacturer));
    put_optional(&mut info, "model", borrowed(&facts.model));
    if let Some(seconds) = facts.uptime_seconds {
        put(&mut info, "uptime_seconds", JsonInput::Number(seconds));
    }
    if let Some((total, available)) = facts.system_drive {
        put(&mut info, "system_drive_total_bytes", JsonInput::Number(total));
        put(&mut info, "system_drive_available_bytes", JsonInput::Number(available));
    }
    info
}

/// What is sent of a log: the log, and the diagnostic trace behind it where there is more
/// to it than white space. Nothing where the log itself is blank.
pub open spec fn upload_content(log: Seq<char>, diag: Option<Seq<char>>) -> Option<Seq<char>> {
    if blank(log) {
        None
    } else if diag is Some && !blank(diag->0) {
        Some(
            log + "\n\n=== Ctrl+Alt+Del / SAS / watchdog diagnostic trace ("@ + DIAG_FILE_PATH@
                + ") ===\n"@ + diag->0,
        )
    } else {
        Some(log)
    }
}

/// The request that uploads a log; nothing where there is no log, or nothing in it.
pub fn upload(
    base_url: &str,
    credential: &str,
    client_version: &str,
    log: Option<String>,
    diag: Option<&str>,
    hardware_info: serde_json::Map<String, serde_json::Value>,
) -> (r: Option<HttpRequest>)
    ensures
        r is Some <==> log is Some && !blank(log->0@),
        r matches Some(request) ==> request@ == (RequestView {
            method: HttpMethod::Post,
            url: without_trailing(base_url@, '/') + "/v1/device/log-upload"@,
            bearer: Some(credential@),
            body: Some(
                rendered_in_order(
                    and_text(
                        and_text(
                            no_fields(),
                            "log_content"@,
                            upload_content(log->0@, borrowed_view(diag))->0,
                        ),
                        "client_version"@,
                        client_version@,
                    ).push(
                        ("hardware_info"@, JsonNode::Object(object_members(hardware_info))),
                    ),
                ),
            ),
        }),
{
    let log = match log {
        Some(log) => log,
        None => {
            return None;
        },
    };
    if is_blank(log.as_str()) {
        return None;
    }
    let mut content = log;
    if let Some(diag) = diag {
        if !is_blank(diag) {
            content = content.concat(
                "\n\n=== Ctrl+Alt+Del / SAS / watchdog diagnostic trace (",
            ).concat(DIAG_FILE_PATH).concat(") ===\n").concat(diag);
        }
    }
    let mut body = empty_body();
    add_text(&mut body, "log_content", content.as_str());
    add_text(&mut body, "client_version", client_version);
    add_field(&mut body, "hardware_info", JsonInput::Object(hardware_info));
    Some(
        HttpRequest {
            method: HttpMethod::Post,
            url: join_url(base_url, "/v1/device/log-upload"),
            bearer: Some(credential.to_owned()),
            body: Some(render_in_order(body)),
        },
    )
}

/// What came of an attempt to upload a log.
#[derive(Debug, Clone, Copy, PartialEq, Eq, Structural)]
pub enum UploadAttempt {
    /// The log was sent, and the answer was the status of success.
    Sent,
    /// There was no log, or nothing in it.
    NothingToSend,
    Failed,
}

/// Whether an attempt counts as the upload of the day. One that was missed or failed does
/// not: it is made again in the next cycle, so that no request for a log is lost.
pub fn counts_as_upload(attempt: UploadAttempt) -> (r: bool)
    ensures
        r == (attempt == UploadAttempt::Sent),
{
    matches!(attempt, UploadAttempt::Sent)
}

/// Holds the answer to an upload to the status of success; otherwise says which status
/// came, by its own words.
pub fn upload_outcome(status: u16, status_text: &str) -> (r: Result<(), String>)
    ensures
        r is Ok <==> status == 200,
        r matches Err(text) ==> text@ == "debug log upload failed: HTTP "@ + status_text@,
{
    if status != 200 {
        return Err(joined("debug log upload failed: HTTP ", status_text));
    }
    Ok(())
}

/// A log is uploaded where it is asked for, where none was uploaded yet, and where the last one
/// was uploaded a day ago. Only an upload that was sent counts as one.
pub proof fn law_log_is_uploaded_daily_or_when_asked(
    force: bool,
    since: Option<u128>,
    due: bool,
    attempt: UploadAttempt,
    counts: bool,
)
    requires
        call_ensures(should_upload, (force, since), due),
        call_ensures(counts_as_upload, (attempt,), counts),
    ensures
        due <==> force || since is None || since->0 >= 24 * 3600 * 1_000_000_000,
        counts <==> attempt == UploadAttempt::Sent,
{
}

/// The tail of a log is its last bytes, as many as are wanted, or all where it has fewer, and
/// its text is what those bytes stand for.
pub proof fn law_tail_is_the_end_of_the_log(
    bytes: &[u8],
    max_bytes: u64,
    start: u64,
    r: String,
)
    requires
        bytes@.len() <= u64::MAX,
        call_ensures(log_tail_start, (bytes@.len() as u64, max_bytes), start),
        call_ensures(read_log_tail, (bytes, 0, bytes@.len() as u64, max_bytes), r),
    ensures
        bytes@.len() <= max_bytes ==> start == 0 && r@ == lossy_text(bytes@),
        bytes@.len() > max_bytes ==> start == bytes@.len() - max_bytes && r@ == lossy_text(
            bytes@.subrange(bytes@.len() - max_bytes, bytes@.len() as int),
        ),
{
    assert(bytes@.skip(0) =~= bytes@);
    if bytes@.len() > max_bytes {
        assert(bytes@.skip(bytes@.len() - max_bytes) =~= bytes@.subrange(
            bytes@.len() - max_bytes,
            bytes@.len() as int,
        ));
    }
}

/// What was read of a log from some position on, not behind the tail's beginning, gives the
/// same text as the whole log.
pub proof fn law_reading_less_of_a_log_gives_the_same_tail(
    bytes: &[u8],
    rest: &[u8],
    offset: u64,
    length: u64,
    max_bytes: u64,
    whole: String,
    r: String,
)
    requires
        offset <= tail_start(length, max_bytes) <= bytes@.len(),
        rest@ == bytes@.skip(offset as int),
        call_ensures(read_log_tail, (bytes, 0, length, max_bytes), whole),
        call_ensures(read_log_tail, (rest, offset, length, max_bytes), r),
    ensures
        r@ == whole@,
{
    let start = tail_start(length, max_bytes) as int;
    assert(rest@.skip(start - offset) =~= bytes@.skip(start));
}

/// The members that the machine's facts add to the system information are there under their
/// names, those that are not known are as they were, and every other member stays.
pub proof fn law_hardware_facts_are_added(
    system: serde_json::Map<String, serde_json::Value>,
    facts: HardwareFacts,
    r: serde_json::Map<String, serde_json::Value>,
    key: Seq<char>,
)
    requires
        call_ensures(gather_hardware_info, (system, &facts), r),
    ensures
        object_members(r).contains_pair(
            "architecture"@,
            JsonNode::Text(facts.architecture@),
        ),
        object_members(r).contains_pair(
            "client_reported_time"@,
            JsonNode::Text(facts.client_reported_time@),
        ),
        object_members(r).contains_pair(
            "managed_build_number"@,
            JsonNode::Number(facts.managed_build_number),
        ),
        facts.pending_managed_update is None ==> object_members(r).contains_pair(
            "pending_managed_update"@,
            JsonNode::Null,
        ),
        facts.pending_managed_update matches Some((build, version)) ==> object_members(
            r,
        ).contains_pair(
            "pending_managed_update"@,
            JsonNode::Object(
                map![
                    "build_number"@ => JsonNode::Number(build),
                    "version"@ => JsonNode::Text(version@),
                ],
            ),
        ),
        facts.manufacturer matches Some(text) ==> object_members(r).contains_pair(
            "manufacturer"@,
            JsonNode::Text(text@),
        ),
        facts.model matches Some(text) ==> object_members(r).contains_pair(
            "model"@,
            JsonNode::Text(text@),
        ),
        facts.uptime_seconds matches Some(seconds) ==> object_members(r).contains_pair(
            "uptime_seconds"@,
            JsonNode::Number(seconds),
        ),
        facts.system_drive matches Some((total, available)) ==> object_members(r).contains_pair(
            "system_drive_total_bytes"@,
            JsonNode::Number(total),
        ) && object_members(r).contains_pair(
            "system_drive_available_bytes"@,
            JsonNode::Number(available),
        ),
        key != "architecture"@ && key != "client_reported_time"@ && key != "managed_build_number"@
            && key != "pending_managed_update"@ && !(key == "manufacturer"@
            && facts.manufacturer is Some) && !(key == "model"@ && facts.model is Some) && !(key
            == "uptime_seconds"@ && facts.uptime_seconds is Some) && !((key
            == "system_drive_total_bytes"@ || key == "system_drive_available_bytes"@)
            && facts.system_drive is Some) ==> {
            &&& object_members(r).contains_key(key) <==> object_members(system).contains_key(key)
            &&& object_members(system).contains_key(key) ==> object_members(r)[key]
                == object_members(system)[key]
        },
{
    lemma_hardware_keys_differ();
    if let Some((build, version)) = facts.pending_managed_update {
        assert(with_text(
            no_members().insert("build_number"@, JsonNode::Number(build)),
            "version"@,
            version@,
        ) =~= map![
            "build_number"@ => JsonNode::Number(build),
            "version"@ => JsonNode::Text(version@),
        ]);
    }
}

proof fn lemma_hardware_keys_differ()
    ensures
        "architecture"@.len() == 12,
        "client_reported_time"@.len() == 20,
        "client_reported_time"@[0] == 'c',
        "managed_build_number"@.len() == 20,
        "managed_build_number"@[0] == 'm',
        "pending_managed_update"@.len() == 22,
        "manufacturer"@.len() == 12,
        "manufacturer"@[0] == 'm',
        "architecture"@[0] == 'a',
        "model"@.len() == 5,
        "uptime_seconds"@.len() == 14,
        "system_drive_total_bytes"@.len() == 24,
        "system_drive_available_bytes"@.len() == 28,
{
    reveal_strlit("architecture");
    reveal_strlit("client_reported_time");
    reveal_strlit("managed_build_number");
    reveal_strlit("pending_managed_update");
    reveal_strlit("manufacturer");
    reveal_strlit("model");
    reveal_strlit("uptime_seconds");
    reveal_strlit("system_drive_total_bytes");
    reveal_strlit("system_drive_available_bytes");
}

/// An upload sends the log, with the trace behind it where there is one, the version and what is
/// known of the machine, with the credential that is given; and nothing is sent of a log that
/// is blank.
pub proof fn law_upload_sends_the_log(
    base: &str,
    credential: &str,
    version: &str,
    log: Option<String>,
    diag: Option<&str>,
    info: serde_json::Map<String, serde_json::Value>,
    r: Option<HttpRequest>,
)
    requires
        call_ensures(upload, (base, credential, version, log, diag, info), r),
    ensures
        r is Some <==> log is Some && trimmed(log->0@).len() > 0,
        r matches Some(request) ==> {
            let content = if diag is Some && trimmed(diag->0@).len() > 0 {
                log->0@ + "\n\n=== Ctrl+Alt+Del / SAS / watchdog diagnostic trace ("@
                    + "C:\\ProgramData\\rustdesk-ctrlaltdel-diag.txt"@ + ") ===\n"@ + diag->0@
            } else {
                log->0@
            };
            &&& request.method == HttpMethod::Post
            &&& request.url@ == without_trailing(base@, '/') + "/v1/device/log-upload"@
            &&& request.bearer is Some
            &&& request.bearer->0@ == credential@
            &&& request.body is Some
            &&& request.body->0@ == rendered_in_order(
                seq![
                    ("log_content"@, JsonNode::Text(content)),
                    ("client_version"@, JsonNode::Text(version@)),
                    ("hardware_info"@, JsonNode::Object(object_members(info))),
                ],
            )
        },
{
    if let Some(text) = log {
        lemma_blank_iff_trimmed_empty(text@);
    }
    if let Some(text) = diag {
        lemma_blank_iff_trimmed_empty(text@);
    }
    if let Some(request) = r {
        let content = upload_content(log->0@, borrowed_view(diag))->0;
        let view = request@;
        assert(and_text(
            and_text(no_fields(), "log_content"@, content),
            "client_version"@,
            version@,
        ).push(("hardware_info"@, JsonNode::Object(object_members(info)))) =~= seq![
            ("log_content"@, JsonNode::Text(content)),
            ("client_version"@, JsonNode::Text(version@)),
            ("hardware_info"@, JsonNode::Object(object_members(info))),
        ]);
    }
}

/// The answer to an upload is good exactly where its status is that of success. The log that is
/// taken is the one that was written last.
pub proof fn law_uploads_take_the_newest_log(
    status: u16,
    status_text: &str,
    outcome: Result<(), String>,
    times: Vec<i128>,
    newest: Option<usize>,
)
    requires
        call_ensures(upload_outcome, (status, status_text), outcome),
        call_ensures(find_active_log_file, (&times,), newest),
    ensures
        outcome is Ok <==> status == 200,
        outcome matches Err(text) ==> text@ == "debug log upload failed: HTTP "@ + status_text@,
        newest is Some <==> times@.len() > 0,
        newest matches Some(index) ==> index < times@.len() && forall|i: int|
            0 <= i < times@.len() ==> #[trigger] times@[i] <= times@[index as int] && (i > index
                ==> times@[i] < times@[index as int]),
{
}

/// The system drive that is found is the first one whose mount point is the drive's name and a
/// backslash, in any case.
pub proof fn law_system_drive_is_found_by_its_name(
    drives: Vec<String>,
    drive: &str,
    found: Option<usize>,
    i: int,
)
    requires
        call_ensures(system_drive_space, (&drives, drive), found),
        0 <= i < drives@.len(),
    ensures
        found matches Some(index) ==> index < drives@.len(),
        found == Some(i as usize) && i <= usize::MAX ==> lowercased(drives@[i]@) == lowercased(
            drive@ + "\\"@,
        ),
        found is Some && i < found->0 ==> lowercased(drives@[i]@) != lowercased(drive@ + "\\"@),
        is_system_drive(drives@[i]@, drive@) <==> lowercased(drives@[i]@) == lowercased(
            drive@ + "\\"@,
        ),
{
}

} // verus!
