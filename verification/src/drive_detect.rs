use vstd::prelude::*;

verus! {

/// Coarse media category of a storage device, driving the erase strategy.
/// Always the output of classification, never constructed from thin air by
/// callers of the erase pipeline.
#[derive(Clone, Copy, Debug, PartialEq, Eq, Structural)]
pub enum DriveType {
    HDD,
    SSD,
    Unknown,
}

/// The Unicode white space characters (the `White_Space` property), the set
/// that the platform's string trimming removes around a reported value.
pub open spec fn is_white_space(c: char) -> bool {
    let u = c as u32;
    ||| u == 0x20
    ||| (0x09 <= u && u <= 0x0D)
    ||| u == 0x85
    ||| u == 0xA0
    ||| u == 0x1680
    ||| (0x2000 <= u && u <= 0x200A)
    ||| u == 0x2028
    ||| u == 0x2029
    ||| u == 0x202F
    ||| u == 0x205F
    ||| u == 0x3000
}

/// Every position of the signal other than `i` holds white space.
pub open spec fn all_ws_but(s: Seq<char>, i: int) -> bool {
    forall|j: int| 0 <= j < s.len() && j != i ==> #[trigger] is_white_space(s[j])
}

/// Trimming the white space around the signal leaves exactly the flag
/// character: some position holds the flag and every other position is white
/// space.
pub open spec fn is_flag(s: Seq<char>, flag: char) -> bool {
    exists|i: int| 0 <= i < s.len() && #[trigger] s[i] == flag && all_ws_but(s, i)
}

/// What classification returns for a platform-reported rotational flag:
/// `0` up to surrounding white space means solid-state, `1` means
/// rotational, anything else (or an unreadable signal) is unknown.
pub open spec fn classify_spec(flag: Option<Seq<char>>) -> DriveType {
    match flag {
        None => DriveType::Unknown,
        Some(s) => if is_flag(s, '0') {
            DriveType::SSD
        } else if is_flag(s, '1') {
            DriveType::HDD
        } else {
            DriveType::Unknown
        },
    }
}

/// A signal that holds one non-white-space character decides classification
/// by that character alone.
proof fn lemma_flag_unique(s: Seq<char>, i: int, flag: char)
    requires
        0 <= i < s.len(),
        !is_white_space(s[i]),
        all_ws_but(s, i),
        !is_white_space(flag),
    ensures
        is_flag(s, flag) <==> s[i] == flag,
{
    if s[i] == flag {
        assert(is_flag(s, flag));
    }
    if is_flag(s, flag) {
        let k = choose|k: int| 0 <= k < s.len() && s[k] == flag && all_ws_but(s, k);
        if k != i {
            assert(is_white_space(s[i]));
            assert(false);
        }
    }
}

/// A signal of white space alone carries no flag.
proof fn lemma_all_ws_no_flag(s: Seq<char>, flag: char)
    requires
        forall|j: int| 0 <= j < s.len() ==> #[trigger] is_white_space(s[j]),
        !is_white_space(flag),
    ensures
        !is_flag(s, flag),
{
    if is_flag(s, flag) {
        let k = choose|k: int| 0 <= k < s.len() && s[k] == flag && all_ws_but(s, k);
        assert(is_white_space(s[k]));
        assert(false);
    }
}

/// A signal with two non-white-space characters carries no flag.
proof fn lemma_two_non_ws_no_flag(s: Seq<char>, a: int, b: int, flag: char)
    requires
        0 <= a < s.len(),
        0 <= b < s.len(),
        a != b,
        !is_white_space(s[a]),
        !is_white_space(s[b]),
    ensures
        !is_flag(s, flag),
{
    if is_flag(s, flag) {
        let k = choose|k: int| 0 <= k < s.len() && s[k] == flag && all_ws_but(s, k);
        if k != a {
            assert(is_white_space(s[a]));
        }
        if k != b {
            assert(is_white_space(s[b]));
        }
        assert(false);
    }
}

/// Whether one character is Unicode white space.
fn is_white_space_char(c: char) -> (r: bool)
    ensures
        r == is_white_space(c),
{
    let u = c as u32;
    u == 0x20 || (0x09 <= u && u <= 0x0D) || u == 0x85 || u == 0xA0 || u == 0x1680
        || (0x2000 <= u && u <= 0x200A) || u == 0x2028 || u == 0x2029 || u == 0x202F
        || u == 0x205F || u == 0x3000
}

/// Maps a platform-reported rotational flag to a media category, tolerating
/// the white space that surrounds such a value as platforms print it (a
/// sysfs read ends in a newline). A missing or malformed signal yields
/// `Unknown` rather than an error: classification failure must not abort the
/// pipeline, the dispatcher has an explicit policy for `Unknown`.
pub fn classify_rotational(flag: Option<&str>) -> (r: DriveType)
    ensures
        r == classify_spec(match flag {
            Some(s) => Some(s@),
            None => None,
        }),
{
    let s = match flag {
        Some(s) => s,
        None => { return DriveType::Unknown; },
    };
    let n = s.unicode_len();
    let mut i: usize = 0;
    let mut count: usize = 0;
    let mut flag_char: char = ' ';
    let mut first_at: usize = 0;
    let mut second_at: usize = 0;
    while i < n
        invariant
            flag == Some(s),
            i <= n,
            n == s@.len(),
            count <= 2,
            count == 0 ==> forall|j: int| 0 <= j < i ==> #[trigger] is_white_space(s@[j]),
            count == 1 ==> first_at < i && s@[first_at as int] == flag_char
                && !is_white_space(flag_char)
                && forall|j: int|
                    0 <= j < i && j != first_at ==> #[trigger] is_white_space(s@[j]),
            count == 2 ==> first_at < n && second_at < n && first_at != second_at
                && !is_white_space(s@[first_at as int])
                && !is_white_space(s@[second_at as int]),
        decreases n - i,
    {
        let c = s.get_char(i);
        if !is_white_space_char(c) {
            if count == 0 {
                flag_char = c;
                first_at = i;
                count = 1;
            } else if count == 1 {
                second_at = i;
                count = 2;
            }
        }
        i = i + 1;
    }
    if count == 1 {
        proof {
            assert(all_ws_but(s@, first_at as int));
            lemma_flag_unique(s@, first_at as int, '0');
            lemma_flag_unique(s@, first_at as int, '1');
        }
        if flag_char == '0' {
            DriveType::SSD
        } else if flag_char == '1' {
            DriveType::HDD
        } else {
            DriveType::Unknown
        }
    } else if count == 0 {
        proof {
            lemma_all_ws_no_flag(s@, '0');
            lemma_all_ws_no_flag(s@, '1');
        }
        DriveType::Unknown
    } else {
        proof {
            lemma_two_non_ws_no_flag(s@, first_at as int, second_at as int, '0');
            lemma_two_non_ws_no_flag(s@, first_at as int, second_at as int, '1');
        }
        DriveType::Unknown
    }
}

/// Character-for-character equality of two texts.
fn str_eq(a: &str, b: &str) -> (r: bool)
    ensures
        r == (a@ == b@),
{
    let n = a.unicode_len();
    let m = b.unicode_len();
    if n != m {
        return false;
    }
    let mut i: usize = 0;
    while i < n
        invariant
            i <= n,
            n == a@.len(),
            n == b@.len(),
            forall|j: int| 0 <= j < i ==> a@[j] == b@[j],
        decreases n - i,
    {
        if a.get_char(i) != b.get_char(i) {
            return false;
        }
        i = i + 1;
    }
    proof {
        assert(a@ =~= b@);
    }
    true
}

/// Maps a vendor-reported media-type label, as a platform's disk inventory
/// prints it, to a category: the labels `SSD` and `HDD` are recognized,
/// anything else is unknown.
pub fn classify_media_type(label: &str) -> (r: DriveType)
    ensures
        r == (if label@ == "SSD"@ {
            DriveType::SSD
        } else if label@ == "HDD"@ {
            DriveType::HDD
        } else {
            DriveType::Unknown
        }),
{
    if str_eq(label, "SSD") {
        DriveType::SSD
    } else if str_eq(label, "HDD") {
        DriveType::HDD
    } else {
        DriveType::Unknown
    }
}

/// A fixed placeholder listing of storage targets with their categories, for
/// platforms where no enumeration of block devices is wired up: the internal
/// storage is reported as solid-state and the removable card as rotational.
/// Real platform enumeration is done by the calling application, which feeds
/// each device's reported signal through `classify_rotational`.
pub fn get_drives() -> (r: Vec<(String, DriveType)>)
    ensures
        r@.len() == 2,
        r@[0].0@ == "/storage/emulated/0"@,
        r@[0].1 == DriveType::SSD,
        r@[1].0@ == "/storage/0123-4567"@,
        r@[1].1 == DriveType::HDD,
{
    let mut drives: Vec<(String, DriveType)> = Vec::new();
    drives.push((String::from_str("/storage/emulated/0"), DriveType::SSD));
    drives.push((String::from_str("/storage/0123-4567"), DriveType::HDD));
    drives
}

} // verus!
