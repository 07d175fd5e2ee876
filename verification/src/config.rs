//! Configuration handling: parsing environment-file lines, looking keys up,
//! reading a decimal identifier, picking the destination channel, and
//! assembling the startup secrets.  The process edges (reading the file,
//! querying the chat backend for its channel list) stay outside; everything
//! that decides is here.

use vstd::prelude::*;
use crate::text::{spec_contains, str_contains, str_eq};

verus! {

/// The configuration names no usable destination channel.
#[derive(Debug, Clone)]
pub struct ImproperConfigError;

impl ImproperConfigError {
    /// Human-readable description of the error.
    pub fn message(&self) -> (r: String)
        ensures
            r@ == "channel id not found"@,
    {
        String::from_str("channel id not found")
    }
}

/// The secrets the relay needs at startup.
#[derive(Clone)]
pub struct Secrets {
    pub discord_bot_token: String,
    pub discord_channel_id: String,
    pub webhook_secret: String,
}

/// Whitespace stripped from keys and values of an environment line.
pub open spec fn is_env_space(c: char) -> bool {
    c == ' ' || c == '\t' || c == '\r'
}

/// Quote characters stripped from the ends of a value.
pub open spec fn is_quote(c: char) -> bool {
    c == '"' || c == '\''
}

/// Drop leading whitespace.
pub open spec fn spec_trim_front(s: Seq<char>) -> Seq<char>
    decreases s.len(),
{
    if s.len() > 0 && is_env_space(s[0]) {
        spec_trim_front(s.skip(1))
    } else {
        s
    }
}

/// Drop trailing whitespace.
pub open spec fn spec_trim_back(s: Seq<char>) -> Seq<char>
    decreases s.len(),
{
    if s.len() > 0 && is_env_space(s.last()) {
        spec_trim_back(s.drop_last())
    } else {
        s
    }
}

/// Drop whitespace from both ends.
pub open spec fn spec_trim(s: Seq<char>) -> Seq<char> {
    spec_trim_back(spec_trim_front(s))
}

/// Drop leading quote characters.
pub open spec fn spec_unquote_front(s: Seq<char>) -> Seq<char>
    decreases s.len(),
{
    if s.len() > 0 && is_quote(s[0]) {
        spec_unquote_front(s.skip(1))
    } else {
        s
    }
}

/// Drop trailing quote characters.
pub open spec fn spec_unquote_back(s: Seq<char>) -> Seq<char>
    decreases s.len(),
{
    if s.len() > 0 && is_quote(s.last()) {
        spec_unquote_back(s.drop_last())
    } else {
        s
    }
}

/// Drop quote characters from both ends.
pub open spec fn spec_unquote(s: Seq<char>) -> Seq<char> {
    spec_unquote_back(spec_unquote_front(s))
}

/// Drop leading whitespace (or, with `quotes`, quote characters).
fn trim_front_by<'a>(s: &'a str, quotes: bool) -> (r: &'a str)
    ensures
        quotes ==> r@ == spec_unquote_front(s@),
        !quotes ==> r@ == spec_trim_front(s@),
    decreases s@.len(),
{
    let len = s.unicode_len();
    if len > 0 {
        let c = s.get_char(0);
        let hit = if quotes {
            c == '"' || c == '\''
        } else {
            c == ' ' || c == '\t' || c == '\r'
        };
        if hit {
            let rest = s.substring_char(1, len);
            proof {
                assert(rest@ =~= s@.skip(1));
            }
            return trim_front_by(rest, quotes);
        }
    }
    s
}

/// Drop trailing whitespace (or, with `quotes`, quote characters).
fn trim_back_by<'a>(s: &'a str, quotes: bool) -> (r: &'a str)
    ensures
        quotes ==> r@ == spec_unquote_back(s@),
        !quotes ==> r@ == spec_trim_back(s@),
    decreases s@.len(),
{
    let len = s.unicode_len();
    if len > 0 {
        let c = s.get_char(len - 1);
        let hit = if quotes {
            c == '"' || c == '\''
        } else {
            c == ' ' || c == '\t' || c == '\r'
        };
        if hit {
            let rest = s.substring_char(0, len - 1);
            proof {
                assert(rest@ =~= s@.drop_last());
            }
            return trim_back_by(rest, quotes);
        }
    }
    s
}

/// What a single environment line means: the first `=` splits it; both sides
/// are trimmed; an absent `=`, an empty key or an empty value make the line
/// meaningless; quotes around the value are stripped.
pub open spec fn spec_parse_env_line(line: Seq<char>) -> Option<(Seq<char>, Seq<char>)> {
    match line.index_of_first('=') {
        None => None,
        Some(p) => {
            let key = spec_trim(line.take(p));
            let value = spec_trim(line.skip(p + 1));
            if key.len() == 0 || value.len() == 0 {
                None
            } else {
                Some((key, spec_unquote(value)))
            }
        },
    }
}

/// Parse a single environment line into its key and value, if it has them.
pub fn parse_env_line(line: &str) -> (r: Option<(String, String)>)
    ensures
        match r {
            Some(kv) => spec_parse_env_line(line@) == Some((kv.0@, kv.1@)),
            None => spec_parse_env_line(line@) is None,
        },
{
    let len = line.unicode_len();
    let mut eq_at: usize = len;
    for i in 0..len
        invariant
            len == line@.len(),
            eq_at <= len,
            eq_at == len ==> forall|j: int| 0 <= j < i ==> line@[j] != '=',
            eq_at < len ==> line@[eq_at as int] == '=' && (forall|j: int|
                0 <= j < eq_at ==> line@[j] != '='),
    {
        if eq_at == len && line.get_char(i) == '=' {
            eq_at = i;
        }
    }
    proof {
        line@.index_of_first_ensures('=');
        if eq_at == len {
            assert(forall|j: int| 0 <= j < line@.len() ==> line@[j] != '=');
            assert(!line@.contains('='));
        } else {
            assert(line@.contains('=')) by {
                assert(line@[eq_at as int] == '=');
            }
            let idx = line@.index_of_first('=').unwrap();
            assert(idx == eq_at as int) by {
                if idx < eq_at as int {
                    assert(line@[idx] != '=');
                } else if idx > eq_at as int {
                    assert(line@[eq_at as int] != '=');
                }
            }
        }
    }
    if eq_at == len {
        return None;
    }
    let keypart = line.substring_char(0, eq_at);
    let valpart = line.substring_char(eq_at + 1, len);
    proof {
        assert(keypart@ =~= line@.take(eq_at as int));
        assert(valpart@ =~= line@.skip(eq_at as int + 1));
    }
    let key = trim_back_by(trim_front_by(keypart, false), false);
    let value = trim_back_by(trim_front_by(valpart, false), false);
    if key.unicode_len() == 0 || value.unicode_len() == 0 {
        return None;
    }
    let value = trim_back_by(trim_front_by(value, true), true);
    Some((key.to_owned(), value.to_owned()))
}

/// The character-sequence views of a list of key/value pairs.
pub open spec fn pairs_view(pairs: Seq<(String, String)>) -> Seq<(Seq<char>, Seq<char>)> {
    Seq::new(pairs.len(), |i: int| (pairs[i].0@, pairs[i].1@))
}

/// A line the environment-file reader ignores: blank, or a comment.
pub open spec fn spec_skip_env_line(line: Seq<char>) -> bool {
    spec_trim(line).len() == 0 || (line.len() > 0 && line[0] == '#')
}

/// The key/value pairs an environment file yields, in file order.
pub open spec fn spec_parse_env_lines(lines: Seq<String>) -> Seq<(Seq<char>, Seq<char>)>
    decreases lines.len(),
{
    if lines.len() == 0 {
        Seq::empty()
    } else {
        let rest = spec_parse_env_lines(lines.drop_last());
        let l = lines.last()@;
        if spec_skip_env_line(l) {
            rest
        } else {
            match spec_parse_env_line(l) {
                Some(kv) => rest.push(kv),
                None => rest,
            }
        }
    }
}

/// Parse the lines of an environment file: blank lines and comments are
/// ignored, every other line contributes its key and value if it has them.
pub fn parse_env_lines(lines: &Vec<String>) -> (r: Vec<(String, String)>)
    ensures
        pairs_view(r@) == spec_parse_env_lines(lines@),
{
    let mut out: Vec<(String, String)> = Vec::new();
    proof {
        assert(lines@.take(0) =~= Seq::<String>::empty());
        assert(pairs_view(out@) =~= spec_parse_env_lines(lines@.take(0)));
    }
    for i in 0..lines.len()
        invariant
            pairs_view(out@) == spec_parse_env_lines(lines@.take(i as int)),
    {
        let ghost pre = out@;
        proof {
            assert(lines@.take(i as int + 1).drop_last() =~= lines@.take(i as int));
            assert(lines@.take(i as int + 1).last() == lines@[i as int]);
        }
        let line = lines[i].as_str();
        let trimmed = trim_back_by(trim_front_by(line, false), false);
        let blank = trimmed.unicode_len() == 0;
        let comment = if line.unicode_len() > 0 {
            line.get_char(0) == '#'
        } else {
            false
        };
        if !blank && !comment {
            match parse_env_line(line) {
                Some(kv) => {
                    out.push(kv);
                    proof {
                        assert(pairs_view(out@) =~= pairs_view(pre).push(
                            (out@.last().0@, out@.last().1@),
                        ));
                    }
                },
                None => {},
            }
        }
    }
    proof {
        assert(lines@.take(lines@.len() as int) =~= lines@);
    }
    out
}

/// The value the environment gives a key: the last assignment wins, as it
/// does when the pairs are folded into a map in order.
pub open spec fn spec_env_value(pairs: Seq<(Seq<char>, Seq<char>)>, key: Seq<char>) -> Option<
    Seq<char>,
>
    decreases pairs.len(),
{
    if pairs.len() == 0 {
        None
    } else if pairs.last().0 == key {
        Some(pairs.last().1)
    } else {
        spec_env_value(pairs.drop_last(), key)
    }
}

/// Look a key up among parsed environment pairs; the last assignment wins.
pub fn env_value(pairs: &Vec<(String, String)>, key: &str) -> (r: Option<String>)
    ensures
        match r {
            Some(v) => spec_env_value(pairs_view(pairs@), key@) == Some(v@),
            None => spec_env_value(pairs_view(pairs@), key@) is None,
        },
{
    let ghost all = pairs_view(pairs@);
    let mut i = pairs.len();
    proof {
        assert(all.take(pairs@.len() as int) =~= all);
    }
    while i > 0
        invariant
            i <= pairs.len(),
            all == pairs_view(pairs@),
            spec_env_value(all, key@) == spec_env_value(all.take(i as int), key@),
        decreases i,
    {
        i = i - 1;
        proof {
            assert(all.take(i as int + 1).last() == all[i as int]);
            assert(all.take(i as int + 1).drop_last() =~= all.take(i as int));
        }
        if str_eq(pairs[i].0.as_str(), key) {
            return Some(pairs[i].1.clone());
        }
    }
    proof {
        assert(all.take(0) =~= Seq::<(Seq<char>, Seq<char>)>::empty());
    }
    None
}

/// A decimal digit.
pub open spec fn is_digit(c: char) -> bool {
    48 <= c as int <= 57
}

/// The numeric value of a digit.
pub open spec fn digit_val(c: char) -> nat {
    (c as int - 48) as nat
}

/// All characters are decimal digits.
pub open spec fn all_digits(s: Seq<char>) -> bool {
    forall|i: int| 0 <= i < s.len() ==> is_digit(#[trigger] s[i])
}

/// The value a digit string denotes.
pub open spec fn spec_dec_val(s: Seq<char>) -> nat
    decreases s.len(),
{
    if s.len() == 0 {
        0
    } else {
        spec_dec_val(s.drop_last()) * 10 + digit_val(s.last())
    }
}

/// A digit string never denotes less than any of its prefixes.
proof fn lemma_dec_val_prefix(s: Seq<char>, i: int)
    requires
        0 <= i <= s.len(),
    ensures
        spec_dec_val(s) >= spec_dec_val(s.take(i)),
    decreases s.len() - i,
{
    if i < s.len() {
        assert(s.take(i + 1).drop_last() =~= s.take(i));
        assert(s.take(i + 1).last() == s[i]);
        assert(spec_dec_val(s.take(i + 1)) >= spec_dec_val(s.take(i)));
        lemma_dec_val_prefix(s, i + 1);
    } else {
        assert(s.take(i) =~= s);
    }
}

/// Read an unsigned decimal number: accepted exactly when the string is
/// nonempty, all digits, and its value fits in 64 bits.
pub fn parse_u64_dec(s: &str) -> (r: Option<u64>)
    ensures
        match r {
            Some(v) => s@.len() > 0 && all_digits(s@) && v == spec_dec_val(s@),
            None => s@.len() == 0 || !all_digits(s@) || spec_dec_val(s@) > u64::MAX,
        },
{
    let len = s.unicode_len();
    if len == 0 {
        return None;
    }
    let mut acc: u64 = 0;
    proof {
        assert(s@.take(0) =~= Seq::<char>::empty());
    }
    for i in 0..len
        invariant
            len == s@.len(),
            forall|j: int| 0 <= j < i ==> is_digit(#[trigger] s@[j]),
            acc == spec_dec_val(s@.take(i as int)),
    {
        let c = s.get_char(i);
        let code = c as u32;
        if code < 48 || code > 57 {
            return None;
        }
        let d = (code - 48) as u64;
        proof {
            assert(s@.take(i as int + 1).drop_last() =~= s@.take(i as int));
            assert(s@.take(i as int + 1).last() == s@[i as int]);
        }
        let shifted = match acc.checked_mul(10) {
            Some(a) => a,
            None => {
                proof {
                    assert(spec_dec_val(s@.take(i as int + 1)) > u64::MAX);
                    lemma_dec_val_prefix(s@, i as int + 1);
                }
                return None;
            },
        };
        acc = match shifted.checked_add(d) {
            Some(a) => a,
            None => {
                proof {
                    assert(spec_dec_val(s@.take(i as int + 1)) > u64::MAX);
                    lemma_dec_val_prefix(s@, i as int + 1);
                }
                return None;
            },
        };
    }
    proof {
        assert(s@.take(len as int) =~= s@);
    }
    Some(acc)
}

/// The first channel whose name names the relay's topic.
pub open spec fn spec_find_github_channel(channels: Seq<(u64, String)>) -> Option<u64>
    decreases channels.len(),
{
    if channels.len() == 0 {
        None
    } else if spec_contains(channels[0].1@, "github"@) {
        Some(channels[0].0)
    } else {
        spec_find_github_channel(channels.skip(1))
    }
}

/// Pick the destination channel: the first whose name contains `github`.
pub fn find_github_channel(channels: &Vec<(u64, String)>) -> (r: Option<u64>)
    ensures
        r == spec_find_github_channel(channels@),
{
    proof {
        assert(channels@.skip(0) =~= channels@);
    }
    for i in 0..channels.len()
        invariant
            spec_find_github_channel(channels@) == spec_find_github_channel(
                channels@.skip(i as int),
            ),
    {
        proof {
            assert(channels@.skip(i as int)[0] == channels@[i as int]);
        }
        if str_contains(channels[i].1.as_str(), "github") {
            return Some(channels[i].0);
        }
        proof {
            assert(channels@.skip(i as int).skip(1) =~= channels@.skip(i as int + 1));
        }
    }
    None
}

/// Assemble the startup secrets from parsed environment pairs and the
/// resolved destination channel.  Every mandatory key must be assigned:
/// the bot credential, the webhook secret, and the two deployment tokens
/// whose presence is checked and nothing more.  A missing key is a fatal
/// configuration error.
pub fn load_secrets_from(env: &Vec<(String, String)>, discord_channel_id: String) -> (r: Result<
    Secrets,
    ImproperConfigError,
>)
    ensures
        r is Ok <==> {
            &&& spec_env_value(pairs_view(env@), "DISCORD_BOT_TOKEN"@) is Some
            &&& spec_env_value(pairs_view(env@), "GITHUB_WEBHOOK_SECRET"@) is Some
            &&& spec_env_value(pairs_view(env@), "CLOUDFLARE_TUNNEL_TOKEN"@) is Some
            &&& spec_env_value(pairs_view(env@), "DISCORD_APPLICATION_KEY"@) is Some
        },
        r matches Ok(s) ==> {
            &&& Some(s.discord_bot_token@) == spec_env_value(
                pairs_view(env@),
                "DISCORD_BOT_TOKEN"@,
            )
            &&& Some(s.webhook_secret@) == spec_env_value(
                pairs_view(env@),
                "GITHUB_WEBHOOK_SECRET"@,
            )
            &&& s.discord_channel_id@ == discord_channel_id@
        },
{
    let token = match env_value(env, "DISCORD_BOT_TOKEN") {
        Some(v) => v,
        None => {
            return Err(ImproperConfigError);
        },
    };
    let webhook_secret = match env_value(env, "GITHUB_WEBHOOK_SECRET") {
        Some(v) => v,
        None => {
            return Err(ImproperConfigError);
        },
    };
    if env_value(env, "CLOUDFLARE_TUNNEL_TOKEN").is_none() {
        return Err(ImproperConfigError);
    }
    if env_value(env, "DISCORD_APPLICATION_KEY").is_none() {
        return Err(ImproperConfigError);
    }
    Ok(Secrets { discord_bot_token: token, discord_channel_id, webhook_secret })
}

} // verus!
