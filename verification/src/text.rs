//! The strings that the chart list shows and the paths that it derives from ids.
use vstd::prelude::*;

verus! {

/// The character of a decimal digit.
pub open spec fn digit(d: nat) -> char {
    ('0' as nat + d) as char
}

/// The decimal digits of `n`, without leading zeros.
pub open spec fn decimal(n: nat) -> Seq<char>
    decreases n,
{
    if n < 10 {
        seq![digit(n)]
    } else {
        decimal(n / 10).push(digit(n % 10))
    }
}

/// The decimal digits of `i` with a minus sign in front where `i` is negative.
pub open spec fn signed_decimal(i: int) -> Seq<char> {
    if i < 0 {
        seq!['-'] + decimal((-i) as nat)
    } else {
        decimal(i as nat)
    }
}

fn append_digit(out: &mut String, d: u64)
    requires
        d < 10,
    ensures
        final(out)@ == old(out)@.push(digit(d as nat)),
{
    proof {
        reveal_strlit("0");
        reveal_strlit("1");
        reveal_strlit("2");
        reveal_strlit("3");
        reveal_strlit("4");
        reveal_strlit("5");
        reveal_strlit("6");
        reveal_strlit("7");
        reveal_strlit("8");
        reveal_strlit("9");
    }
    let text = match d {
        0 => "0",
        1 => "1",
        2 => "2",
        3 => "3",
        4 => "4",
        5 => "5",
        6 => "6",
        7 => "7",
        8 => "8",
        _ => "9",
    };
    out.append(text);
}

/// Appends `n` in decimal.
pub fn append_decimal(out: &mut String, n: u64)
    ensures
        final(out)@ == old(out)@ + decimal(n as nat),
    decreases n,
{
    if n >= 10 {
        append_decimal(out, n / 10);
    }
    append_digit(out, n % 10);
}

/// Appends `i` in decimal, with a minus sign where it is negative.
pub fn append_signed(out: &mut String, i: i32)
    ensures
        final(out)@ == old(out)@ + signed_decimal(i as int),
{
    let wide: i64 = i as i64;
    if wide < 0 {
        proof {
            reveal_strlit("-");
        }
        out.append("-");
        append_decimal(out, (-wide) as u64);
    } else {
        append_decimal(out, wide as u64);
    }
}

/// `pattern` stands in `text` from the position `i` on.
pub open spec fn occurs_at(text: Seq<char>, pattern: Seq<char>, i: int) -> bool {
    &&& 0 <= i
    &&& i + pattern.len() <= text.len()
    &&& text.subrange(i, i + pattern.len()) == pattern
}

/// `pattern` is a contiguous part of `text`.
pub open spec fn contains_text(text: Seq<char>, pattern: Seq<char>) -> bool {
    exists|i: int| occurs_at(text, pattern, i)
}

fn chars_of(text: &str) -> (chars: Vec<char>)
    ensures
        chars@ == text@,
{
    let mut chars: Vec<char> = Vec::new();
    for c in it: text.chars()
        invariant
            it.seq() == text@,
            chars@ == it.seq().take(it.index() as int),
    {
        chars.push(c);
    }
    chars
}

fn matches_at(text: &Vec<char>, pattern: &Vec<char>, i: usize) -> (matched: bool)
    requires
        i + pattern.len() <= text.len(),
    ensures
        matched == occurs_at(text@, pattern@, i as int),
{
    for k in 0..pattern.len()
        invariant
            i + pattern.len() <= text.len(),
            forall|j: int| 0 <= j < k ==> #[trigger] pattern@[j] == text@[i + j],
    {
        if text[i + k] != pattern[k] {
            return false;
        }
    }
    assert(text@.subrange(i as int, i + pattern.len()) =~= pattern@);
    true
}

/// Whether `pattern` is a contiguous part of `text`.
pub fn contains(text: &str, pattern: &str) -> (found: bool)
    ensures
        found == contains_text(text@, pattern@),
{
    let t = chars_of(text);
    let p = chars_of(pattern);
    let mut i: usize = 0;
    while p.len() <= t.len() - i
        invariant
            t@ == text@,
            p@ == pattern@,
            i <= t.len(),
            forall|k: int| 0 <= k < i ==> !occurs_at(text@, pattern@, k),
        decreases t.len() - i,
    {
        if matches_at(&t, &p, i) {
            return true;
        }
        if i == t.len() {
            return false;
        }
        i = i + 1;
    }
    false
}

/// The level with its number: the level as it is where it carries an `Lv.`
/// already, and otherwise with ` Lv.` and the difficulty behind it.
pub open spec fn labelled(level: Seq<char>, difficulty: i32) -> Seq<char> {
    if contains_text(level, "Lv."@) {
        level
    } else {
        level + " Lv."@ + signed_decimal(difficulty as int)
    }
}

/// Makes the label that a chart's card shows for its level.
pub fn level_label(level: &String, difficulty: i32) -> (label: String)
    ensures
        label@ == labelled(level@, difficulty),
{
    let mut label = level.clone();
    if !contains(level.as_str(), "Lv.") {
        label.append(" Lv.");
        append_signed(&mut label, difficulty);
    }
    label
}

/// The path, below the charts directory, of the download of the chart `id`.
pub open spec fn download_text(id: i32) -> Seq<char> {
    "download/"@ + signed_decimal(id as int)
}

/// Makes the path, below the charts directory, of the download of the chart `id`.
pub fn download_path(id: i32) -> (path: String)
    ensures
        path@ == download_text(id),
{
    let mut path = String::from_str("download/");
    append_signed(&mut path, id);
    path
}

/// `path` below the directory `base`.
pub open spec fn joined(base: Seq<char>, path: Seq<char>) -> Seq<char> {
    base + "/"@ + path
}

/// Puts `path` below the directory `base`.
pub fn join_path(base: &String, path: &String) -> (full: String)
    ensures
        full@ == joined(base@, path@),
{
    let mut full = base.clone();
    full.append("/");
    full.append(path.as_str());
    full
}

/// What is reported once `count` charts are deleted.
pub open spec fn deleted_text(count: nat) -> Seq<char> {
    "Deleted "@ + decimal(count) + " chart(s)"@
}

/// Makes the message for `count` deleted charts.
pub fn deleted_message(count: usize) -> (message: String)
    ensures
        message@ == deleted_text(count as nat),
{
    let mut message = String::from_str("Deleted ");
    append_decimal(&mut message, count as u64);
    message.append(" chart(s)");
    message
}

/// What is reported where the directory `full` could not be deleted.
pub open spec fn failed_text(full: Seq<char>) -> Seq<char> {
    "Failed to delete chart at path: "@ + full
}

/// Makes the message for a directory that could not be deleted.
pub fn failed_message(full: &String) -> (message: String)
    ensures
        message@ == failed_text(full@),
{
    let mut message = String::from_str("Failed to delete chart at path: ");
    message.append(full.as_str());
    message
}

/// Two numbers with the same decimal digits are the same.
pub proof fn decimal_is_injective(a: nat, b: nat)
    requires
        decimal(a) == decimal(b),
    ensures
        a == b,
    decreases a,
{
    assert(decimal(a).last() == digit(a % 10));
    assert(decimal(b).last() == digit(b % 10));
    decimal_is_nonempty(a / 10);
    decimal_is_nonempty(b / 10);
    if a >= 10 && b >= 10 {
        assert(decimal(a).drop_last() =~= decimal(a / 10));
        assert(decimal(b).drop_last() =~= decimal(b / 10));
        decimal_is_injective(a / 10, b / 10);
    }
}

proof fn decimal_is_nonempty(n: nat)
    ensures
        decimal(n).len() >= 1,
    decreases n,
{
    if n >= 10 {
        decimal_is_nonempty(n / 10);
    }
}

/// Every character of a decimal is a digit.
pub proof fn decimal_has_only_digits(n: nat, i: int)
    requires
        0 <= i < decimal(n).len(),
    ensures
        '0' <= decimal(n)[i] <= '9',
    decreases n,
{
    if n >= 10 && i < decimal(n).len() - 1 {
        decimal_has_only_digits(n / 10, i);
    }
}

/// Two numbers with the same signed decimal are the same.
pub proof fn signed_decimal_is_injective(a: int, b: int)
    requires
        signed_decimal(a) == signed_decimal(b),
    ensures
        a == b,
{
    if a >= 0 {
        decimal_is_nonempty(a as nat);
        decimal_has_only_digits(a as nat, 0);
    } else {
        assert(signed_decimal(a).skip(1) =~= decimal((-a) as nat));
    }
    if b >= 0 {
        decimal_is_nonempty(b as nat);
        decimal_has_only_digits(b as nat, 0);
    } else {
        assert(signed_decimal(b).skip(1) =~= decimal((-b) as nat));
    }
    if a < 0 && b < 0 {
        decimal_is_injective((-a) as nat, (-b) as nat);
    } else if a >= 0 && b >= 0 {
        decimal_is_injective(a as nat, b as nat);
    }
}

/// Two charts share a download path only where they share their id.
pub proof fn download_paths_are_distinct(a: i32, b: i32)
    requires
        download_text(a) == download_text(b),
    ensures
        a == b,
{
    let n = "download/"@.len() as int;
    assert(download_text(a).skip(n) =~= signed_decimal(a as int));
    assert(download_text(b).skip(n) =~= signed_decimal(b as int));
    signed_decimal_is_injective(a as int, b as int);
}

/// A label always carries an `Lv.`, starts with the level, and is left alone
/// when it is labelled again.
pub proof fn label_is_complete(level: Seq<char>, difficulty: i32, other: i32)
    ensures
        contains_text(labelled(level, difficulty), "Lv."@),
        level.is_prefix_of(labelled(level, difficulty)),
        labelled(labelled(level, difficulty), other) == labelled(level, difficulty),
{
    reveal_strlit("Lv.");
    reveal_strlit(" Lv.");
    if !contains_text(level, "Lv."@) {
        let i: int = level.len() as int + 1;
        let label = labelled(level, difficulty);
        assert(label.subrange(i, i + 3) =~= "Lv."@);
        assert(occurs_at(label, "Lv."@, i));
    }
}

} // verus!
