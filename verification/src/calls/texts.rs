//! The calls that make texts, in terms of how the texts read.
use vstd::prelude::*;
use crate::text::{
    append_decimal, append_signed, contains, contains_text, decimal, deleted_message, deleted_text,
    download_path, download_text, failed_message, join_path, labelled, level_label, occurs_at,
    signed_decimal,
};

verus! {

/// The number that a row of digits stands for.
pub open spec fn value(digits: Seq<char>) -> int
    decreases digits.len(),
{
    if digits.len() == 0 {
        0
    } else {
        value(digits.drop_last()) * 10 + (digits.last() as int - '0' as int)
    }
}

/// `text` is the usual way to write the number `n`: digits only, none of them a
/// zero in front of others.
pub open spec fn writes(text: Seq<char>, n: int) -> bool {
    &&& text.len() > 0
    &&& forall|i: int| 0 <= i < text.len() ==> '0' <= #[trigger] text[i] <= '9'
    &&& text.len() > 1 ==> text[0] != '0'
    &&& value(text) == n
}

/// `text` is the usual way to write `i`, with a minus sign where it is negative.
pub open spec fn writes_signed(text: Seq<char>, i: int) -> bool {
    if i < 0 {
        text.len() > 0 && text[0] == '-' && writes(text.skip(1), -i)
    } else {
        writes(text, i)
    }
}

/// `pattern` can be read in `text`, letter by letter.
pub open spec fn readable_in(text: Seq<char>, pattern: Seq<char>) -> bool {
    exists|i: int| #[trigger]
        readable_at(text, pattern, i)
}

pub open spec fn readable_at(text: Seq<char>, pattern: Seq<char>, i: int) -> bool {
    &&& 0 <= i
    &&& i + pattern.len() <= text.len()
    &&& forall|k: int| 0 <= k < pattern.len() ==> text[i + k] == #[trigger] pattern[k]
}

/// `label` shows the level and a number: it is the level where that has an
/// `Lv.`, and else the level, ` Lv.` and the written difficulty.
pub open spec fn shows_level(label: Seq<char>, level: Seq<char>, difficulty: i32) -> bool {
    let tag = seq![' ', 'L', 'v', '.'];
    if readable_in(level, seq!['L', 'v', '.']) {
        label == level
    } else {
        &&& label.len() > level.len() + 4
        &&& label.take(level.len() as int) == level
        &&& label.subrange(level.len() as int, level.len() as int + 4) == tag
        &&& writes_signed(label.skip(level.len() as int + 4), difficulty as int)
    }
}

/// `path` is that of the download of the chart `id`.
pub open spec fn is_download(path: Seq<char>, id: int) -> bool {
    &&& path.len() > 9
    &&& path.take(9) == seq!['d', 'o', 'w', 'n', 'l', 'o', 'a', 'd', '/']
    &&& writes_signed(path.skip(9), id)
}

/// `message` tells that `count` charts were deleted.
pub open spec fn tells_count(message: Seq<char>, count: int) -> bool {
    let front = seq!['D', 'e', 'l', 'e', 't', 'e', 'd', ' '];
    let back = seq![' ', 'c', 'h', 'a', 'r', 't', '(', 's', ')'];
    &&& message.len() > 17
    &&& message.take(8) == front
    &&& message.skip(message.len() - 9) == back
    &&& writes(message.subrange(8, message.len() - 9), count)
}

/// Decimals are written the usual way, and so they can be read again.
pub proof fn decimals_are_written(n: nat)
    ensures
        writes(decimal(n), n as int),
        n > 0 ==> decimal(n)[0] != '0',
    decreases n,
{
    if n < 10 {
        assert(value(decimal(n).drop_last()) == 0);
    } else {
        decimals_are_written(n / 10);
        assert(decimal(n).drop_last() =~= decimal(n / 10));
        assert forall|i: int| 0 <= i < decimal(n).len() implies '0' <= #[trigger] decimal(n)[i]
            <= '9' by {
        }
    }
}

/// Signed decimals are written the usual way.
pub proof fn signed_decimals_are_written(i: int)
    ensures
        writes_signed(signed_decimal(i), i),
{
    if i < 0 {
        decimals_are_written((-i) as nat);
        assert(signed_decimal(i).skip(1) =~= decimal((-i) as nat));
    } else {
        decimals_are_written(i as nat);
    }
}

/// Appending a number leaves the text in front as it was and writes the number
/// behind it.
pub proof fn append_decimal_call(out: &mut String, n: u64)
    requires
        call_ensures(append_decimal, (out, n), ()),
    ensures
        old(out)@.is_prefix_of(final(out)@),
        writes(final(out)@.skip(old(out)@.len() as int), n as int),
{
    decimals_are_written(n as nat);
    assert(final(out)@.skip(old(out)@.len() as int) =~= decimal(n as nat));
}

/// Appending a signed number leaves the text in front as it was and writes the
/// number behind it.
pub proof fn append_signed_call(out: &mut String, i: i32)
    requires
        call_ensures(append_signed, (out, i), ()),
    ensures
        old(out)@.is_prefix_of(final(out)@),
        writes_signed(final(out)@.skip(old(out)@.len() as int), i as int),
{
    signed_decimals_are_written(i as int);
    assert(final(out)@.skip(old(out)@.len() as int) =~= signed_decimal(i as int));
}

/// A pattern is found exactly where it can be read letter by letter.
pub proof fn contains_call(text: &str, pattern: &str, found: bool)
    requires
        call_ensures(contains, (text, pattern), found),
    ensures
        found <==> readable_in(text@, pattern@),
{
    contained_is_readable(text@, pattern@);
}

proof fn contained_is_readable(text: Seq<char>, pattern: Seq<char>)
    ensures
        contains_text(text, pattern) <==> readable_in(text, pattern),
{
    if contains_text(text, pattern) {
        let i = choose|i: int| occurs_at(text, pattern, i);
        assert forall|k: int| 0 <= k < pattern.len() implies text[i + k] == #[trigger] pattern[k]
            by {}
        assert(readable_at(text, pattern, i));
    }
    if readable_in(text, pattern) {
        let i = choose|i: int| #[trigger] readable_at(text, pattern, i);
        assert(text.subrange(i, i + pattern.len()) =~= pattern);
        assert(occurs_at(text, pattern, i));
    }
}

/// A label shows the level and its number.
pub proof fn labels_show_level(level: Seq<char>, difficulty: i32)
    ensures
        shows_level(labelled(level, difficulty), level, difficulty),
{
    let label = labelled(level, difficulty);
    reveal_strlit("Lv.");
    reveal_strlit(" Lv.");
    assert("Lv."@ =~= seq!['L', 'v', '.']);
    contained_is_readable(level, "Lv."@);
    signed_decimals_are_written(difficulty as int);
    if !contains_text(level, "Lv."@) {
        assert(label.take(level.len() as int) =~= level);
        assert(label.subrange(level.len() as int, level.len() as int + 4) =~= seq![
            ' ',
            'L',
            'v',
            '.',
        ]);
        assert(label.skip(level.len() as int + 4) =~= signed_decimal(difficulty as int));
    }
}

/// The label that a call makes shows the level and its number.
pub proof fn level_label_call(level: &String, difficulty: i32, label: String)
    requires
        call_ensures(level_label, (level, difficulty), label),
    ensures
        shows_level(label@, level@, difficulty),
{
    labels_show_level(level@, difficulty);
}

/// Download paths are below `download/` and end in the written id.
pub proof fn downloads_are_named(id: i32)
    ensures
        is_download(download_text(id), id as int),
{
    reveal_strlit("download/");
    signed_decimals_are_written(id as int);
    assert(download_text(id).take(9) =~= seq!['d', 'o', 'w', 'n', 'l', 'o', 'a', 'd', '/']);
    assert(download_text(id).skip(9) =~= signed_decimal(id as int));
}

/// The path that a call makes is that of the download.
pub proof fn download_path_call(id: i32, path: String)
    requires
        call_ensures(download_path, (id,), path),
    ensures
        path@ == download_text(id),
        is_download(path@, id as int),
{
    downloads_are_named(id);
}

/// A joined path is the directory, a slash and the path, and nothing more.
pub proof fn join_path_call(base: &String, path: &String, full: String)
    requires
        call_ensures(join_path, (base, path), full),
    ensures
        full@.len() == base@.len() + 1 + path@.len(),
        full@.take(base@.len() as int) == base@,
        full@[base@.len() as int] == '/',
        full@.skip(base@.len() as int + 1) == path@,
{
    reveal_strlit("/");
}

/// The message of a deletion tells the count.
pub proof fn deleted_messages_tell_count(count: nat)
    ensures
        tells_count(deleted_text(count), count as int),
{
    reveal_strlit("Deleted ");
    reveal_strlit(" chart(s)");
    decimals_are_written(count);
    let message = deleted_text(count);
    let n = message.len() as int;
    assert(message.take(8) =~= seq!['D', 'e', 'l', 'e', 't', 'e', 'd', ' ']);
    assert(message.skip(n - 9) =~= seq![' ', 'c', 'h', 'a', 'r', 't', '(', 's', ')']);
    assert(message.subrange(8, n - 9) =~= decimal(count));
}

/// The message that a call makes tells the count.
pub proof fn deleted_message_call(count: usize, message: String)
    requires
        call_ensures(deleted_message, (count,), message),
    ensures
        tells_count(message@, count as int),
{
    deleted_messages_tell_count(count as nat);
}

/// The message of a failed removal names the directory, whatever that is.
pub proof fn failed_message_call(full: &String, message: String)
    requires
        call_ensures(failed_message, (full,), message),
    ensures
        message@ == "Failed to delete chart at path: "@ + full@,
{
}

} // verus!
