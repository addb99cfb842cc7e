//! The mail-service's message model, and the camera name carried in an alert's body.

use vstd::prelude::*;

verus! {

/// The line prefix that announces the camera name in an alert's body.
pub const CAMERA_MARKER: &'static str = "Alarm Camera Name:";

/// Sender or recipient of a mail message.
pub struct EmailUser {
    pub name: String,
    pub address: String,
}

/// One inbound webhook notification. Only `id` is read by the pipeline.
pub struct WebhookMessage {
    pub id: String,
    pub message_id: String,
    pub read: bool,
    pub from: EmailUser,
    pub to: Vec<EmailUser>,
    pub subject: String,
    pub created: String,
    pub size: i32,
    pub attachments: i32,
    pub snippet: String,
}

/// One part of a message.
pub struct Attachment {
    pub content_type: String,
    pub file_name: String,
    pub part_id: String,
    pub size: i32,
}

/// Metadata of one mail message: its text body and its attachments, in order.
pub struct MessageDetails {
    pub text: String,
    pub attachments: Vec<Attachment>,
}

/// A retrieved snapshot, tagged with the camera that took it.
pub struct ImageData {
    pub camera_name: String,
    pub data: Vec<u8>,
}

/// Unicode `White_Space`, the set of characters that `str::trim` removes.
pub open spec fn is_whitespace(c: char) -> bool {
    let u = c as u32;
    (0x9 <= u && u <= 0xd) || u == 0x20 || u == 0x85 || u == 0xa0 || u == 0x1680 || (0x2000 <= u
        && u <= 0x200a) || u == 0x2028 || u == 0x2029 || u == 0x202f || u == 0x205f || u == 0x3000
}

/// `s` without its leading and trailing whitespace.
pub open spec fn trim(s: Seq<char>) -> Seq<char>
    decreases s.len(),
{
    if s.len() > 0 && is_whitespace(s[0]) {
        trim(s.drop_first())
    } else if s.len() > 0 && is_whitespace(s.last()) {
        trim(s.drop_last())
    } else {
        s
    }
}

/// Position `i` of `t` begins a line.
pub open spec fn starts_line(t: Seq<char>, i: int) -> bool {
    i == 0 || (0 < i <= t.len() && t[i - 1] == '\n')
}

/// The camera marker stands in `t` at position `i`.
pub open spec fn marker_at(t: Seq<char>, i: int) -> bool {
    0 <= i && i + CAMERA_MARKER@.len() <= t.len() && t.subrange(i, i + CAMERA_MARKER@.len())
        == CAMERA_MARKER@
}

/// The first position at or after `i` where a line begins with the camera marker.
pub open spec fn first_marker_line(t: Seq<char>, i: int) -> Option<int>
    decreases t.len() + 1 - i,
{
    if i < 0 || i > t.len() {
        None
    } else if starts_line(t, i) && marker_at(t, i) {
        Some(i)
    } else {
        first_marker_line(t, i + 1)
    }
}

/// The end of the `:`-separated field of a line that starts at `j`: the next `:`,
/// line break or the end of the text.
pub open spec fn field_end(t: Seq<char>, j: int) -> int
    decreases t.len() - j,
{
    if j < 0 || j >= t.len() || t[j] == ':' || t[j] == '\n' {
        j
    } else {
        field_end(t, j + 1)
    }
}

/// The camera name of a message body: on the first line that begins with the
/// marker, the second `:`-separated field (the one right after the marker's
/// colon), trimmed. `None` where no line begins with the marker.
pub open spec fn camera_name_of(t: Seq<char>) -> Option<Seq<char>> {
    match first_marker_line(t, 0) {
        Some(i) => {
            let start = i + CAMERA_MARKER@.len();
            Some(trim(t.subrange(start, field_end(t, start))))
        },
        None => None,
    }
}

proof fn lemma_no_marker_line_past(t: Seq<char>, i: int)
    requires
        i > t.len() - CAMERA_MARKER@.len(),
    ensures
        first_marker_line(t, i) is None,
    decreases t.len() + 1 - i,
{
    if 0 <= i <= t.len() {
        lemma_no_marker_line_past(t, i + 1);
    }
}

fn marker_stands_at(t: &str, i: usize) -> (r: bool)
    requires
        i + CAMERA_MARKER@.len() <= t@.len() <= usize::MAX,
    ensures
        r == marker_at(t@, i as int),
{
    let m = CAMERA_MARKER.unicode_len();
    let mut k: usize = 0;
    while k < m
        invariant
            m == CAMERA_MARKER@.len(),
            i + m <= t@.len() <= usize::MAX,
            k <= m,
            forall|q: int| 0 <= q < k ==> t@[i + q] == CAMERA_MARKER@[q],
        decreases m - k,
    {
        if t.get_char(i + k) != CAMERA_MARKER.get_char(k) {
            assert(t@.subrange(i as int, i + m)[k as int] != CAMERA_MARKER@[k as int]);
            return false;
        }
        k = k + 1;
    }
    assert(t@.subrange(i as int, i + m) =~= CAMERA_MARKER@);
    true
}

/// The part of `t` between `b` and `e`, trimmed: what comes back is the slice
/// `lo..hi` with `trim(t[b..e]) == t[lo..hi]`.
fn trim_bounds(t: &str, b: usize, e: usize) -> (r: (usize, usize))
    requires
        b <= e <= t@.len(),
    ensures
        b <= r.0 <= r.1 <= e,
        t@.subrange(r.0 as int, r.1 as int) == trim(t@.subrange(b as int, e as int)),
{
    let mut lo = b;
    while lo < e && is_whitespace_char(t.get_char(lo))
        invariant
            b <= lo <= e <= t@.len(),
            trim(t@.subrange(lo as int, e as int)) == trim(t@.subrange(b as int, e as int)),
        decreases e - lo,
    {
        assert(t@.subrange(lo as int, e as int).drop_first() =~= t@.subrange(lo + 1, e as int));
        lo = lo + 1;
    }
    let mut hi = e;
    while hi > lo && is_whitespace_char(t.get_char(hi - 1))
        invariant
            b <= lo <= hi <= e <= t@.len(),
            lo < e ==> !is_whitespace(t@[lo as int]),
            trim(t@.subrange(lo as int, hi as int)) == trim(t@.subrange(b as int, e as int)),
        decreases hi - lo,
    {
        assert(t@.subrange(lo as int, hi as int).drop_last() =~= t@.subrange(lo as int, hi - 1));
        hi = hi - 1;
    }
    if hi == lo {
        assert(t@.subrange(lo as int, hi as int) =~= Seq::<char>::empty());
    }
    (lo, hi)
}

fn is_whitespace_char(c: char) -> (r: bool)
    ensures
        r == is_whitespace(c),
{
    let u = c as u32;
    (0x9 <= u && u <= 0xd) || u == 0x20 || u == 0x85 || u == 0xa0 || u == 0x1680 || (0x2000 <= u
        && u <= 0x200a) || u == 0x2028 || u == 0x2029 || u == 0x202f || u == 0x205f || u == 0x3000
}

impl MessageDetails {
    /// The camera name announced in the body, or `None` where no line carries
    /// the marker.
    pub fn get_camera_name(&self) -> (r: Option<String>)
        ensures
            match r {
                Some(name) => camera_name_of(self.text@) == Some(name@),
                None => camera_name_of(self.text@) is None,
            },
    {
        let t = self.text.as_str();
        let n = t.unicode_len();
        let m = CAMERA_MARKER.unicode_len();
        proof {
            reveal_strlit("Alarm Camera Name:");
        }
        if m > n {
            proof {
                lemma_no_marker_line_past(t@, 0);
            }
            return None;
        }
        let mut i: usize = 0;
        while i <= n - m
            invariant
                t@ == self.text@,
                n == t@.len(),
                m == CAMERA_MARKER@.len(),
                0 < m <= n,
                i <= n - m + 1,
                first_marker_line(t@, 0) == first_marker_line(t@, i as int),
            decreases n - m + 1 - i,
        {
            if (i == 0 || t.get_char(i - 1) == '\n') && marker_stands_at(t, i) {
                let start = i + m;
                let mut j = start;
                while j < n && t.get_char(j) != ':' && t.get_char(j) != '\n'
                    invariant
                        start <= j <= n,
                        n == t@.len(),
                        field_end(t@, start as int) == field_end(t@, j as int),
                    decreases n - j,
                {
                    j = j + 1;
                }
                let (lo, hi) = trim_bounds(t, start, j);
                let name = String::from_str(t.substring_char(lo, hi));
                return Some(name);
            }
            i = i + 1;
        }
        proof {
            lemma_no_marker_line_past(t@, i as int);
        }
        None
    }
}

} // verus!
