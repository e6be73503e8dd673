use vstd::prelude::*;
use vstd::string::{StrSliceExecFns, StringSliceAdditionalSpecFns};

use crate::emoji::ReactionEmoji;

verus! {

/// Why the configuration wizard stopped without writing a configuration.
#[derive(Clone, Copy, Debug, PartialEq, Eq, Structural)]
pub enum SetupCommandError {
    NoGuild,
    Timeout,
    UnparseableEmoji,
    NoReportsChannelSpecified,
    InvalidReportsChannelSpecified,
    TooManyReportsChannelSpecified,
    InvalidConfirmation,
    RejectedConfiguration,
}

/// Whether `c` has the Unicode `Emoji` property.
pub uninterp spec fn emoji_char(c: char) -> bool;

/// Relies on unic::emoji::char::is_emoji: whether `c` has the Unicode `Emoji`
/// property, as unic's tables give it.
#[verifier::external_body]
fn is_emoji(c: char) -> (r: bool)
    ensures
        r == emoji_char(c),
{
    unic::emoji::char::is_emoji(c)
}

/// The id of the custom emoji that a mention such as `<:name:id>` or
/// `<a:name:id>` names, if the text is one.
pub uninterp spec fn custom_emoji_id(s: Seq<char>) -> Option<u64>;

/// Relies on serenity::utils::parse_emoji: the id of the custom emoji that
/// `text` mentions, if it is such a mention. It slices the text by byte
/// offsets, which never panics on ASCII text.
#[verifier::external_body]
fn parse_custom_emoji(text: &str) -> (r: Option<u64>)
    requires
        text.is_ascii(),
    ensures
        r == custom_emoji_id(text@),
{
    serenity::utils::parse_emoji(text).map(|e| e.id.0)
}

/// `r` is the report emoji that a typed answer `text` gives: its first
/// character where that is an emoji (`first_is_emoji`), else the custom
/// emoji that it mentions (`custom`), else none.
pub open spec fn typed_emoji_spec(
    r: Result<ReactionEmoji, SetupCommandError>,
    text: Seq<char>,
    first_is_emoji: bool,
    custom: Option<u64>,
) -> bool {
    if text.len() > 0 && first_is_emoji {
        r matches Ok(ReactionEmoji::Unicode(g)) && g@ == text.subrange(0, 1)
    } else {
        match custom {
            Some(id) => r == Ok::<ReactionEmoji, SetupCommandError>(ReactionEmoji::Custom(id)),
            None => r == Err::<ReactionEmoji, SetupCommandError>(
                SetupCommandError::UnparseableEmoji,
            ),
        }
    }
}

/// The report emoji that a typed answer `text` gives, where
/// `first_is_emoji` says whether its first character is an emoji and
/// `custom` is the custom emoji that it mentions, if any.
pub fn report_emoji_from_answer(text: &str, first_is_emoji: bool, custom: Option<u64>) -> (r: Result<
    ReactionEmoji,
    SetupCommandError,
>)
    ensures
        typed_emoji_spec(r, text@, first_is_emoji, custom),
{
    if first_is_emoji && text.unicode_len() > 0 {
        let glyph = text.substring_char(0, 1).to_owned();
        Ok(ReactionEmoji::Unicode(glyph))
    } else {
        match custom {
            Some(id) => Ok(ReactionEmoji::Custom(id)),
            None => Err(SetupCommandError::UnparseableEmoji),
        }
    }
}

/// The report emoji that a typed answer gives: its first character where
/// that is an emoji, else the custom emoji that the answer mentions. Text
/// that is not ASCII mentions no custom emoji.
pub fn typed_emoji(text: &str) -> (r: Result<ReactionEmoji, SetupCommandError>)
    ensures
        typed_emoji_spec(
            r,
            text@,
            text@.len() > 0 && emoji_char(text@[0]),
            if text.is_ascii() {
                custom_emoji_id(text@)
            } else {
                None
            },
        ),
{
    let first_is_emoji = text.unicode_len() > 0 && is_emoji(text.get_char(0));
    let custom = if !first_is_emoji && text.is_ascii() {
        parse_custom_emoji(text)
    } else {
        None
    };
    report_emoji_from_answer(text, first_is_emoji, custom)
}

/// An ASCII decimal digit.
pub open spec fn is_digit(b: u8) -> bool {
    48 <= b <= 57
}

/// The length of the run of digits that starts at `i`.
pub open spec fn digit_run(s: Seq<u8>, i: int) -> nat
    decreases s.len() - i,
{
    if 0 <= i < s.len() && is_digit(s[i]) {
        1 + digit_run(s, i + 1)
    } else {
        0
    }
}

/// The number that the `n` digits from `i` write in decimal.
pub open spec fn digits_value(s: Seq<u8>, i: int, n: nat) -> nat
    decreases n,
{
    if n == 0 {
        0
    } else {
        digits_value(s, i, (n - 1) as nat) * 10 + (s[i + n - 1] - 48) as nat
    }
}

/// A channel mention `<#digits>` starts at `i`.
pub open spec fn mention_at(s: Seq<u8>, i: int) -> bool {
    let n = digit_run(s, i + 2);
    &&& 0 <= i
    &&& i + 3 + n <= s.len()
    &&& s[i] == 60
    &&& s[i + 1] == 35
    &&& n >= 1
    &&& s[i + 2 + n] == 62
}

/// The channel ids mentioned from position `i` on, left to right; a mention
/// whose number does not fit in 64 bits names no channel.
pub open spec fn mentions_from(s: Seq<u8>, i: int) -> Seq<u64>
    decreases s.len() - i,
{
    if i < 0 || i >= s.len() {
        Seq::empty()
    } else if mention_at(s, i) {
        let n = digit_run(s, i + 2);
        let v = digits_value(s, i + 2, n);
        let rest = mentions_from(s, i + 3 + n);
        if v <= u64::MAX {
            seq![v as u64] + rest
        } else {
            rest
        }
    } else {
        mentions_from(s, i + 1)
    }
}

/// A longer run of digits writes a number at least as large.
proof fn lemma_digits_value_grows(s: Seq<u8>, i: int, n: nat)
    requires
        0 <= i,
        i + n + 1 <= s.len(),
        is_digit(s[i + n]),
    ensures
        digits_value(s, i, n + 1) >= digits_value(s, i, n),
{
    assert(digits_value(s, i, n + 1) == digits_value(s, i, n) * 10 + (s[i + n] - 48) as nat);
}

/// The run of digits from `i` continues at `i + 1` one shorter.
proof fn lemma_digit_run_step(s: Seq<u8>, i: int)
    requires
        0 <= i < s.len(),
        is_digit(s[i]),
    ensures
        digit_run(s, i) == 1 + digit_run(s, i + 1),
{
}

/// The run of digits from `i`, its length and value, or `None` for its value
/// where it does not fit in 64 bits.
fn scan_digits(s: &[u8], i: usize) -> (r: (usize, Option<u64>))
    requires
        i <= s@.len(),
    ensures
        r.0 == digit_run(s@, i as int),
        i + r.0 <= s@.len(),
        match r.1 {
            Some(v) => v as nat == digits_value(s@, i as int, r.0 as nat),
            None => digits_value(s@, i as int, r.0 as nat) > u64::MAX,
        },
{
    let mut k: usize = 0;
    let mut acc: u64 = 0;
    let mut fits = true;
    while k < s.len() - i && 48 <= s[i + k] && s[i + k] <= 57
        invariant
            i + k <= s@.len(),
            digit_run(s@, i as int) == k + digit_run(s@, (i + k) as int),
            forall|j: int| i <= j < i + k ==> is_digit(#[trigger] s@[j]),
            fits ==> acc as nat == digits_value(s@, i as int, k as nat),
            !fits ==> digits_value(s@, i as int, k as nat) > u64::MAX,
        decreases s@.len() - (i + k),
    {
        proof {
            lemma_digit_run_step(s@, (i + k) as int);
            lemma_digits_value_grows(s@, i as int, k as nat);
        }
        let d = (s[i + k] - 48) as u64;
        if fits {
            if acc <= (u64::MAX - d) / 10 {
                assert(acc * 10 + d <= u64::MAX) by (nonlinear_arith)
                    requires
                        acc <= (u64::MAX - d) / 10,
                        d <= 9,
                ;
                acc = acc * 10 + d;
            } else {
                assert(acc * 10 + d > u64::MAX) by (nonlinear_arith)
                    requires
                        acc > (u64::MAX - d) / 10,
                        d <= 9,
                ;
                fits = false;
            }
        }
        k = k + 1;
    }
    if fits {
        (k, Some(acc))
    } else {
        (k, None)
    }
}

/// The channel ids mentioned (`<#id>`) in a message, left to right.
pub fn channel_mention(msg: &str) -> (r: Vec<u64>)
    ensures
        r@ == mentions_from(msg.spec_bytes(), 0),
{
    let s = msg.as_bytes();
    let mut found: Vec<u64> = Vec::new();
    let mut i: usize = 0;
    while i < s.len()
        invariant
            i <= s@.len(),
            s@ == msg.spec_bytes(),
            found@ + mentions_from(s@, i as int) == mentions_from(s@, 0),
        decreases s@.len() - i,
    {
        let mut matched = false;
        if s.len() - i > 2 && s[i] == 60 && s[i + 1] == 35 {
            let (n, value) = scan_digits(s, i + 2);
            if n >= 1 && n < s.len() - (i + 2) && s[i + 2 + n] == 62 {
                assert(mention_at(s@, i as int));
                let ghost before = found@;
                match value {
                    Some(v) => {
                        found.push(v);
                        assert(found@ + mentions_from(s@, (i + 3 + n) as int) =~= before
                            + mentions_from(s@, i as int));
                    },
                    None => {},
                }
                i = i + 3 + n;
                matched = true;
            }
        }
        if !matched {
            assert(!mention_at(s@, i as int));
            i = i + 1;
        }
    }
    assert(found@ + mentions_from(s@, i as int) =~= found@);
    found
}

/// The reports channel named by an answer that mentions the channels
/// `mentions`: exactly one must be mentioned.
pub fn select_reports_channel(mentions: &Vec<u64>) -> (r: Result<u64, SetupCommandError>)
    ensures
        mentions@.len() == 0 ==> r == Err::<u64, SetupCommandError>(
            SetupCommandError::NoReportsChannelSpecified,
        ),
        mentions@.len() == 1 ==> r == Ok::<u64, SetupCommandError>(mentions@[0]),
        mentions@.len() > 1 ==> r == Err::<u64, SetupCommandError>(
            SetupCommandError::TooManyReportsChannelSpecified,
        ),
{
    if mentions.len() == 0 {
        Err(SetupCommandError::NoReportsChannelSpecified)
    } else if mentions.len() == 1 {
        Ok(mentions[0])
    } else {
        Err(SetupCommandError::TooManyReportsChannelSpecified)
    }
}

/// The wizard's last step: a configuration that was not confirmed is rejected.
pub fn confirm_configuration(confirmed: bool) -> (r: Result<(), SetupCommandError>)
    ensures
        r == if confirmed {
            Ok::<(), SetupCommandError>(())
        } else {
            Err::<(), SetupCommandError>(SetupCommandError::RejectedConfiguration)
        },
{
    if confirmed {
        Ok(())
    } else {
        Err(SetupCommandError::RejectedConfiguration)
    }
}

} // verus!
