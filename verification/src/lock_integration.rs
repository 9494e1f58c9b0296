//! Text helpers of the lock commands.
use vstd::prelude::*;
use vstd::utf8::{decode_utf8, encode_utf8, is_char_boundary};
use vstd::string::StringSliceAdditionalSpecFns;
use crate::clock::Timestamp;
use crate::blender_metadata::opt_view;
use crate::styled::{colored_as, green, red, yellow};
use crate::text::{chars_of, decimal, extend_chars, extend_str, push_decimal, push_line, string_from_chars, strings_view};

verus! {

broadcast use vstd::utf8::encode_utf8_decode_utf8;

/// `s` cut to `max` bytes: unchanged if it fits, otherwise its first
/// `max - 3` bytes followed by `...`.
pub open spec fn truncated(s: Seq<char>, max: nat) -> Seq<char> {
    if encode_utf8(s).len() <= max {
        s
    } else {
        decode_utf8(encode_utf8(s).subrange(0, max - 3)) + "..."@
    }
}

/// Whether `s` can be cut to `max` bytes: it fits, or `max` leaves room for
/// the `...` and its first `max - 3` bytes end on a character boundary.
pub open spec fn truncates_cleanly(s: Seq<char>, max: nat) -> bool {
    encode_utf8(s).len() > max ==> max >= 3 && is_char_boundary(encode_utf8(s), max - 3)
}

/// `s` cut to `max_len` bytes: unchanged if it fits, otherwise its first
/// `max_len - 3` bytes followed by `"..."`.
pub fn truncate(s: &str, max_len: usize) -> (r: String)
    requires
        truncates_cleanly(s@, max_len as nat),
    ensures
        r@ == truncated(s@, max_len as nat),
{
    let bytes = s.as_bytes();
    if bytes.len() <= max_len {
        s.to_owned()
    } else {
        let (head, _tail) = s.split_at(max_len - 3);
        assert(head@ == decode_utf8(head.spec_bytes()));
        assert(head.spec_bytes() == s.spec_bytes().subrange(0, max_len - 3));
        let mut r = head.to_owned();
        assert(r@ == head@);
        r.append("...");
        assert(r@ == head@ + "..."@);
        r
    }
}

/// `hostname::get`, as text: the machine's host name, when it can be read
/// and is valid Unicode. It depends on the system, so nothing is stated of
/// it.
#[verifier::external_body]
fn host_name() -> Option<String> {
    hostname::get().ok().and_then(|h| h.into_string().ok())
}

/// The identifier of a user on a machine: `<user>@<host>`, with `unknown`
/// for a part that is not known.
pub open spec fn user_identifier_spec(user: Option<Seq<char>>, host: Option<Seq<char>>) -> Seq<char> {
    (match user {
        Some(u) => u,
        None => "unknown"@,
    }) + "@"@ + (match host {
        Some(h) => h,
        None => "unknown"@,
    })
}

/// The contents of an optional text.
pub open spec fn str_view(o: Option<&str>) -> Option<Seq<char>> {
    match o {
        Some(s) => Some(s@),
        None => None,
    }
}

/// The identifier of `user` on `host`.
pub fn user_identifier(user: Option<&str>, host: Option<&str>) -> (s: String)
    ensures
        s@ == user_identifier_spec(str_view(user), str_view(host)),
{
    let mut s = match user {
        Some(u) => u.to_owned(),
        None => "unknown".to_owned(),
    };
    s.append("@");
    match host {
        Some(h) => s.append(h),
        None => s.append("unknown"),
    }
    s
}

/// The identifier used for lock operations: `user` (the `USER` or
/// `USERNAME` of the environment, which the caller reads) on this machine.
pub fn get_user_identifier(user: Option<&str>) -> (s: String)
    ensures
        exists|host: Option<Seq<char>>| s@ == #[trigger] user_identifier_spec(str_view(user), host),
{
    let host = host_name();
    match &host {
        Some(h) => user_identifier(user, Some(h.as_str())),
        None => user_identifier(user, None),
    }
}

/// A lock as the status box shows it.
#[derive(Debug, Clone)]
pub struct LockReport {
    /// Who holds the lock.
    pub locked_by: String,
    /// When it was acquired.
    pub acquired_at: Timestamp,
    /// When it expires.
    pub expires_at: Timestamp,
    /// Whether it has expired.
    pub expired: bool,
    /// Whether its holder has given no sign of life for over an hour.
    pub stale: bool,
    /// Whole seconds until it expires.
    pub remaining_secs: i64,
    /// Whether the current user holds it.
    pub owned_by_current_user: bool,
}

/// The time `secs` seconds (and `nanos` nanoseconds) after the epoch as
/// chrono formats it with `%Y-%m-%d %H:%M UTC`; none where chrono cannot
/// represent it.
pub uninterp spec fn utc_minute_display(secs: i64, nanos: u32) -> Option<Seq<char>>;

/// `chrono::DateTime::<Utc>::from_timestamp`, then its `format` with
/// `%Y-%m-%d %H:%M UTC`: the time to the minute as chrono writes it.
#[verifier::external_body]
fn utc_minute_text(secs: i64, nanos: u32) -> (r: Option<String>)
    ensures
        opt_view(r) == utc_minute_display(secs, nanos),
{
    match chrono::DateTime::from_timestamp(secs, nanos) {
        Some(d) => Some(d.format("%Y-%m-%d %H:%M UTC").to_string()),
        None => None,
    }
}

/// Top of the lock status box.
pub const LOCK_STATUS_TOP: &'static str = "┌─ Lock Status ───────────────────────────────────────────┐";

/// An empty line of a lock box.
pub const LOCK_BOX_BLANK: &'static str = "│                                                          │";

/// Bottom of a lock box.
pub const LOCK_BOX_BOTTOM: &'static str = "└──────────────────────────────────────────────────────────┘";

/// The status box's line on an expired lock.
pub const EXPIRED_NOTE: &'static str = "│  This lock has expired and can be overwritten           │";

/// The status box's line on a stale lock.
pub const STALE_NOTE: &'static str = "│  No heartbeat for >1 hour (may be abandoned)            │";

/// The status box's line on an unlocked project.
pub const AVAILABLE_NOTE: &'static str = "│  The project is available for editing                    │";

/// `n` spaces.
pub open spec fn spaces(n: nat) -> Seq<char> {
    Seq::new(n, |i: int| ' ')
}

/// `s` padded with spaces to `width` characters.
pub open spec fn padded(s: Seq<char>, width: nat) -> Seq<char> {
    if s.len() < width {
        s + spaces((width - s.len()) as nat)
    } else {
        s
    }
}

/// The status line of the box: the mark, the state, padding.
pub open spec fn status_line(mark: Seq<char>, state: Seq<char>, pad: nat) -> Seq<char> {
    "│  Status: "@ + mark + " "@ + state + spaces(pad) + " │"@
}

/// The mark of a lock's state: a hollow circle when expired, a half circle
/// when stale, a full one otherwise.
pub open spec fn lock_mark(l: LockReport) -> Seq<char> {
    if l.expired {
        "○"@
    } else if l.stale {
        "◐"@
    } else {
        "●"@
    }
}

/// The color of that mark: yellow when expired or stale, red otherwise.
pub open spec fn lock_mark_color(l: LockReport) -> Seq<char> {
    if l.expired || l.stale {
        "33"@
    } else {
        "31"@
    }
}

/// The lines of the box on the state of a lock.
pub open spec fn state_lines(l: LockReport, mark: Seq<char>) -> Seq<Seq<char>> {
    if l.expired {
        seq![status_line(mark, "Expired"@, 42), LOCK_BOX_BLANK@, EXPIRED_NOTE@]
    } else if l.stale {
        seq![status_line(mark, "Stale"@, 44), LOCK_BOX_BLANK@, STALE_NOTE@]
    } else {
        seq![status_line(mark, "Locked"@, 42)]
    }
}

/// The line on the time a lock has left, when it has any.
pub open spec fn remaining_lines(l: LockReport) -> Seq<Seq<char>> {
    if l.remaining_secs > 0 {
        seq![
            "│  Remaining: "@ + decimal((l.remaining_secs / 3600) as nat) + "h "@ + decimal(
                ((l.remaining_secs / 60) % 60) as nat,
            ) + "m"@ + spaces(38) + " │"@,
        ]
    } else {
        Seq::empty()
    }
}

/// The printed lines of the status box of a lock, with its mark shown as
/// `mark` and its times as `acquired` and `expires`.
pub open spec fn locked_box(l: LockReport, mark: Seq<char>, acquired: Seq<char>, expires: Seq<char>) -> Seq<
    Seq<char>,
> {
    seq![Seq::empty(), LOCK_STATUS_TOP@, LOCK_BOX_BLANK@] + state_lines(l, mark) + seq![
        LOCK_BOX_BLANK@,
        "│  Holder:    "@ + padded(truncated(l.locked_by@, 45), 45) + " │"@,
        "│  Acquired:  "@ + acquired + spaces(27) + " │"@,
        "│  Expires:   "@ + expires + spaces(27) + " │"@,
    ] + remaining_lines(l) + seq![LOCK_BOX_BLANK@, LOCK_BOX_BOTTOM@, Seq::empty()]
}

/// The printed lines of the status box of an unlocked project, its mark
/// shown as `mark`.
pub open spec fn unlocked_box(mark: Seq<char>) -> Seq<Seq<char>> {
    seq![
        Seq::empty(),
        LOCK_STATUS_TOP@,
        LOCK_BOX_BLANK@,
        status_line(mark, "Unlocked"@, 40),
        LOCK_BOX_BLANK@,
        AVAILABLE_NOTE@,
        LOCK_BOX_BLANK@,
        LOCK_BOX_BOTTOM@,
        Seq::empty(),
    ]
}

/// Appends `n` spaces.
fn push_spaces(v: &mut Vec<char>, n: usize)
    ensures
        final(v)@ == old(v)@ + spaces(n as nat),
{
    let ghost start = v@;
    let mut i: usize = 0;
    while i < n
        invariant
            i <= n,
            v@ == start + spaces(i as nat),
        decreases n - i,
    {
        v.push(' ');
        i += 1;
        assert(v@ =~= start + spaces(i as nat));
    }
}

/// The status line of the box.
fn status_line_text(mark: &str, state: &str, pad: usize) -> (s: String)
    ensures
        s@ == status_line(mark@, state@, pad as nat),
{
    let mut v: Vec<char> = Vec::new();
    extend_str(&mut v, "│  Status: ");
    extend_str(&mut v, mark);
    extend_str(&mut v, " ");
    extend_str(&mut v, state);
    push_spaces(&mut v, pad);
    extend_str(&mut v, " │");
    assert(v@ =~= status_line(mark@, state@, pad as nat));
    string_from_chars(&v)
}

/// `s` padded with spaces to `width` characters.
fn padded_text(s: &str, width: usize) -> (r: Vec<char>)
    ensures
        r@ == padded(s@, width as nat),
{
    let mut v = chars_of(s);
    if v.len() < width {
        let n = width - v.len();
        push_spaces(&mut v, n);
    }
    v
}

/// The status box of the lock on a project, `None` for no lock: what the
/// lock status command prints, line by line. None when a time of the lock
/// lies outside what chrono can show.
pub fn lock_status_box(lock: Option<&LockReport>) -> (r: Option<Vec<String>>)
    requires
        lock matches Some(l) ==> truncates_cleanly(l.locked_by@, 45),
    ensures
        lock is None ==> (r matches Some(v) && exists|mark: Seq<char>|
            colored_as("●"@, "32"@, mark) && strings_view(v@) == unlocked_box(mark)),
        lock matches Some(l) ==> (r is None <==> (utc_minute_display(l.acquired_at.secs, l.acquired_at.nanos) is None
            || utc_minute_display(l.expires_at.secs, l.expires_at.nanos) is None)),
        lock matches Some(l) ==> (r matches Some(v) ==> exists|mark: Seq<char>|
            colored_as(lock_mark(*l), lock_mark_color(*l), mark) && strings_view(v@) == locked_box(
                *l,
                mark,
                utc_minute_display(l.acquired_at.secs, l.acquired_at.nanos).unwrap(),
                utc_minute_display(l.expires_at.secs, l.expires_at.nanos).unwrap(),
            )),
{
    match lock {
        None => {
            let mark = green("●");
            let mut v: Vec<String> = Vec::new();
            assert(strings_view(v@) =~= Seq::empty());
            push_line(&mut v, "");
            push_line(&mut v, LOCK_STATUS_TOP);
            push_line(&mut v, LOCK_BOX_BLANK);
            let status = status_line_text(mark.as_str(), "Unlocked", 40);
            push_line(&mut v, status.as_str());
            push_line(&mut v, LOCK_BOX_BLANK);
            push_line(&mut v, AVAILABLE_NOTE);
            push_line(&mut v, LOCK_BOX_BLANK);
            push_line(&mut v, LOCK_BOX_BOTTOM);
            push_line(&mut v, "");
            proof {
                reveal_strlit("");
            }
            assert(""@ =~= Seq::<char>::empty());
            assert(strings_view(v@) =~= unlocked_box(mark@));
            Some(v)
        },
        Some(l) => {
            let acquired_text = utc_minute_text(l.acquired_at.secs, l.acquired_at.nanos);
            let acquired = match acquired_text {
                Some(t) => t,
                None => {
                    return None;
                },
            };
            assert(utc_minute_display(l.acquired_at.secs, l.acquired_at.nanos) == Some(acquired@));
            let expires_text = utc_minute_text(l.expires_at.secs, l.expires_at.nanos);
            let expires = match expires_text {
                Some(t) => t,
                None => {
                    return None;
                },
            };
            assert(utc_minute_display(l.expires_at.secs, l.expires_at.nanos) == Some(expires@));
            let mark = if l.expired {
                yellow("○")
            } else if l.stale {
                yellow("◐")
            } else {
                red("●")
            };
            assert(colored_as(lock_mark(*l), lock_mark_color(*l), mark@));
            let mut v: Vec<String> = Vec::new();
            assert(strings_view(v@) =~= Seq::empty());
            push_line(&mut v, "");
            push_line(&mut v, LOCK_STATUS_TOP);
            push_line(&mut v, LOCK_BOX_BLANK);
            let ghost head = strings_view(v@);
            if l.expired {
                let status = status_line_text(mark.as_str(), "Expired", 42);
                push_line(&mut v, status.as_str());
                push_line(&mut v, LOCK_BOX_BLANK);
                push_line(&mut v, EXPIRED_NOTE);
            } else if l.stale {
                let status = status_line_text(mark.as_str(), "Stale", 44);
                push_line(&mut v, status.as_str());
                push_line(&mut v, LOCK_BOX_BLANK);
                push_line(&mut v, STALE_NOTE);
            } else {
                let status = status_line_text(mark.as_str(), "Locked", 42);
                push_line(&mut v, status.as_str());
            }
            assert(strings_view(v@) =~= head + state_lines(*l, mark@));
            push_line(&mut v, LOCK_BOX_BLANK);
            let holder = truncate(l.locked_by.as_str(), 45);
            let mut h = chars_of("│  Holder:    ");
            let hp = padded_text(holder.as_str(), 45);
            extend_chars(&mut h, &hp);
            extend_str(&mut h, " │");
            let holder_line = string_from_chars(&h);
            push_line(&mut v, holder_line.as_str());
            let mut a = chars_of("│  Acquired:  ");
            extend_str(&mut a, acquired.as_str());
            push_spaces(&mut a, 27);
            extend_str(&mut a, " │");
            let acquired_line = string_from_chars(&a);
            push_line(&mut v, acquired_line.as_str());
            let mut e = chars_of("│  Expires:   ");
            extend_str(&mut e, expires.as_str());
            push_spaces(&mut e, 27);
            extend_str(&mut e, " │");
            let expires_line = string_from_chars(&e);
            push_line(&mut v, expires_line.as_str());
            let ghost middle = strings_view(v@);
            if l.remaining_secs > 0 {
                let secs = l.remaining_secs as u64;
                let mut w = chars_of("│  Remaining: ");
                push_decimal(&mut w, secs / 3600);
                extend_str(&mut w, "h ");
                push_decimal(&mut w, (secs / 60) % 60);
                extend_str(&mut w, "m");
                push_spaces(&mut w, 38);
                extend_str(&mut w, " │");
                let remaining_line = string_from_chars(&w);
                push_line(&mut v, remaining_line.as_str());
            }
            assert(strings_view(v@) =~= middle + remaining_lines(*l));
            push_line(&mut v, LOCK_BOX_BLANK);
            push_line(&mut v, LOCK_BOX_BOTTOM);
            push_line(&mut v, "");
            proof {
                reveal_strlit("");
            }
            assert(""@ =~= Seq::<char>::empty());
            assert(strings_view(v@) =~= locked_box(*l, mark@, acquired@, expires@));
            Some(v)
        },
    }
}

/// Top of the box shown when a lock was acquired.
pub const LOCK_ACQUIRED_TOP: &'static str = "┌─ Lock Acquired ─────────────────────────────────────────┐";

/// The box's line on what holding the lock means.
pub const EXCLUSIVE_NOTE: &'static str = "│  ✓ You now have exclusive editing rights                │";

/// The printed lines of the box shown when the lock `lock_id`, valid for
/// `hours` hours, was acquired; its expiry shown as `expires`.
pub open spec fn acquired_box(lock_id: Seq<char>, hours: u64, expires: Seq<char>) -> Seq<Seq<char>> {
    seq![
        Seq::empty(),
        LOCK_ACQUIRED_TOP@,
        LOCK_BOX_BLANK@,
        EXCLUSIVE_NOTE@,
        LOCK_BOX_BLANK@,
        "│  Lock ID: "@ + padded(truncated(lock_id, 44), 44) + " │"@,
        "│  Expires in: "@ + decimal(hours as nat) + " hours"@ + spaces(36) + " │"@,
        "│  Expires at: "@ + expires + spaces(27) + " │"@,
        LOCK_BOX_BLANK@,
        LOCK_BOX_BOTTOM@,
        Seq::empty(),
    ]
}

/// The box the lock acquire command prints once it holds the lock
/// `lock_id` for `timeout_hours` hours, until `expires_at`. None when that
/// time lies outside what chrono can show.
pub fn lock_acquired_box(lock_id: &str, timeout_hours: u64, expires_at: Timestamp) -> (r: Option<Vec<String>>)
    requires
        truncates_cleanly(lock_id@, 44),
    ensures
        r is None <==> utc_minute_display(expires_at.secs, expires_at.nanos) is None,
        r matches Some(v) ==> strings_view(v@) == acquired_box(
            lock_id@,
            timeout_hours,
            utc_minute_display(expires_at.secs, expires_at.nanos).unwrap(),
        ),
{
    let expires_text = utc_minute_text(expires_at.secs, expires_at.nanos);
    let expires = match expires_text {
        Some(t) => t,
        None => {
            return None;
        },
    };
    let mut v: Vec<String> = Vec::new();
    assert(strings_view(v@) =~= Seq::empty());
    push_line(&mut v, "");
    push_line(&mut v, LOCK_ACQUIRED_TOP);
    push_line(&mut v, LOCK_BOX_BLANK);
    push_line(&mut v, EXCLUSIVE_NOTE);
    push_line(&mut v, LOCK_BOX_BLANK);
    let id = truncate(lock_id, 44);
    let mut l = chars_of("│  Lock ID: ");
    let idp = padded_text(id.as_str(), 44);
    extend_chars(&mut l, &idp);
    extend_str(&mut l, " │");
    let id_line = string_from_chars(&l);
    push_line(&mut v, id_line.as_str());
    let mut h = chars_of("│  Expires in: ");
    push_decimal(&mut h, timeout_hours);
    extend_str(&mut h, " hours");
    push_spaces(&mut h, 36);
    extend_str(&mut h, " │");
    let hours_line = string_from_chars(&h);
    push_line(&mut v, hours_line.as_str());
    let mut e = chars_of("│  Expires at: ");
    extend_str(&mut e, expires.as_str());
    push_spaces(&mut e, 27);
    extend_str(&mut e, " │");
    let expires_line = string_from_chars(&e);
    push_line(&mut v, expires_line.as_str());
    push_line(&mut v, LOCK_BOX_BLANK);
    push_line(&mut v, LOCK_BOX_BOTTOM);
    push_line(&mut v, "");
    proof {
        reveal_strlit("");
    }
    assert(""@ =~= Seq::<char>::empty());
    assert(strings_view(v@) =~= acquired_box(lock_id@, timeout_hours, expires@));
    Some(v)
}

/// How a message after a lock command is shown.
#[derive(Debug, Clone, Copy, PartialEq, Eq, Structural)]
pub enum NoticeKind {
    Success,
    Warning,
    Info,
}

/// The messages after the lock status box.
pub open spec fn status_notices(lock: Option<&LockReport>) -> Seq<(NoticeKind, Seq<char>)> {
    match lock {
        None => seq![(NoticeKind::Info, "Acquire lock with: auxin lock acquire"@)],
        Some(l) => if l.owned_by_current_user {
            seq![
                (NoticeKind::Success, "You own this lock"@),
                (NoticeKind::Info, "Release with: auxin lock release"@),
            ]
        } else {
            seq![
                (NoticeKind::Warning, "Locked by another user"@),
                (NoticeKind::Info, "Wait for expiration or contact lock holder"@),
            ]
        },
    }
}

/// The contents of a list of messages.
pub open spec fn notices_view(v: Seq<(NoticeKind, String)>) -> Seq<(NoticeKind, Seq<char>)> {
    v.map_values(|n: (NoticeKind, String)| (n.0, n.1@))
}

/// The messages the lock status command shows after its box.
pub fn lock_status_notices(lock: Option<&LockReport>) -> (r: Vec<(NoticeKind, String)>)
    ensures
        notices_view(r@) == status_notices(lock),
{
    let mut r: Vec<(NoticeKind, String)> = Vec::new();
    match lock {
        None => {
            r.push((NoticeKind::Info, "Acquire lock with: auxin lock acquire".to_owned()));
        },
        Some(l) => {
            if l.owned_by_current_user {
                r.push((NoticeKind::Success, "You own this lock".to_owned()));
                r.push((NoticeKind::Info, "Release with: auxin lock release".to_owned()));
            } else {
                r.push((NoticeKind::Warning, "Locked by another user".to_owned()));
                r.push((NoticeKind::Info, "Wait for expiration or contact lock holder".to_owned()));
            }
        },
    }
    assert(notices_view(r@) =~= status_notices(lock));
    r
}

} // verus!
