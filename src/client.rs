//! Text helpers of the command-line client.
use vstd::prelude::*;
use crate::control::DEFAULT_LIST_LIMIT;
use crate::text::{decimal, decimal_u64};

verus! {

/// Uptime as the client shows it: `1h 2m 3s`, `2m 3s` or `3s`.
pub open spec fn uptime_text(seconds: nat) -> Seq<char> {
    let h = seconds / 3600;
    let m = (seconds % 3600) / 60;
    let s = seconds % 60;
    if h > 0 {
        decimal(h as int) + "h "@ + decimal(m as int) + "m "@ + decimal(s as int) + "s"@
    } else if m > 0 {
        decimal(m as int) + "m "@ + decimal(s as int) + "s"@
    } else {
        decimal(s as int) + "s"@
    }
}

/// The commands the interactive prompt offers, in the order it lists them.
pub open spec fn command_names() -> Seq<Seq<char>> {
    seq![
        "status"@,
        "live"@,
        "list"@,
        "show"@,
        "analyze"@,
        "help"@,
        "exit"@,
        "quit"@,
    ]
}

/// The suggestions for what has been typed so far: after a leading `/`,
/// every command that starts with the rest, written with its `/`; nothing
/// otherwise.
pub open spec fn suggestions_spec(input: Seq<char>) -> Seq<Seq<char>> {
    if input.len() > 0 && input[0] == '/' {
        command_names().filter(|c: Seq<char>| input.drop_first().is_prefix_of(c)).map_values(
            |c: Seq<char>| seq!['/'] + c,
        )
    } else {
        Seq::empty()
    }
}

/// Formats an uptime in seconds.
pub fn format_uptime(seconds: u64) -> (r: String)
    ensures
        r@ == uptime_text(seconds as nat),
{
    let h = seconds / 3600;
    let m = (seconds % 3600) / 60;
    let s = seconds % 60;
    if h > 0 {
        decimal_u64(h).concat("h ").concat(decimal_u64(m).as_str()).concat("m ").concat(
            decimal_u64(s).as_str(),
        ).concat("s")
    } else if m > 0 {
        decimal_u64(m).concat("m ").concat(decimal_u64(s).as_str()).concat("s")
    } else {
        decimal_u64(s).concat("s")
    }
}

/// Whether `p`, from its character `from` on, is a prefix of `c`.
fn rest_is_prefix(p: &str, from: usize, c: &str) -> (r: bool)
    requires
        from <= p@.len(),
    ensures
        r == p@.subrange(from as int, p@.len() as int).is_prefix_of(c@),
{
    let plen = p.unicode_len();
    let clen = c.unicode_len();
    if plen - from > clen {
        return false;
    }
    let mut i: usize = 0;
    while i < plen - from
        invariant
            from <= plen,
            plen == p@.len(),
            clen == c@.len(),
            plen - from <= clen,
            i <= plen - from,
            forall|j: int| 0 <= j < i ==> p@[from + j] == c@[j],
        decreases plen - from - i,
    {
        if p.get_char(from + i) != c.get_char(i) {
            proof {
                let rest = p@.subrange(from as int, p@.len() as int);
                assert(rest[i as int] == p@[from + i]);
                assert(rest.len() <= c@.len() ==> c@.subrange(0, rest.len() as int)[i as int]
                    == c@[i as int]);
            }
            return false;
        }
        i = i + 1;
    }
    assert(p@.subrange(from as int, p@.len() as int) =~= c@.subrange(0, (plen - from) as int));
    true
}

/// The suggestions for what has been typed so far.
pub fn command_suggestions(input: &str) -> (r: Vec<String>)
    ensures
        r@.len() == suggestions_spec(input@).len(),
        forall|i: int| 0 <= i < r@.len() ==> #[trigger] r@[i]@ == suggestions_spec(input@)[i],
{
    let names: Vec<&str> = vec!["status", "live", "list", "show", "analyze", "help", "exit", "quit"];
    assert(names@.map_values(|c: &str| c@) =~= command_names());
    let mut out: Vec<String> = Vec::new();
    if input.unicode_len() == 0 || input.get_char(0) != '/' {
        return out;
    }
    let ghost query = input@.drop_first();
    let ghost keep = |c: Seq<char>| query.is_prefix_of(c);
    let ghost slash = |c: Seq<char>| seq!['/'] + c;
    let mut k: usize = 0;
    while k < names.len()
        invariant
            k <= names@.len(),
            names@.map_values(|c: &str| c@) == command_names(),
            input@.len() > 0,
            query == input@.drop_first(),
            keep == (|c: Seq<char>| query.is_prefix_of(c)),
            slash == (|c: Seq<char>| seq!['/'] + c),
            out@.len() == command_names().subrange(0, k as int).filter(keep).len(),
            forall|i: int|
                0 <= i < out@.len() ==> #[trigger] out@[i]@ == slash(
                    command_names().subrange(0, k as int).filter(keep)[i],
                ),
        decreases names@.len() - k,
    {
        let name = names[k];
        let ghost prev = command_names().subrange(0, k as int);
        let ghost next = command_names().subrange(0, k as int + 1);
        assert(name@ == command_names()[k as int]);
        assert(next.drop_last() =~= prev);
        assert(input@.subrange(1, input@.len() as int) =~= query);
        if rest_is_prefix(input, 1, name) {
            out.push(String::from_str("/").concat(name));
            proof {
                reveal_strlit("/");
            }
        }
        proof {
            assert(next.last() == name@);
            reveal(Seq::filter);
            assert(next.filter(keep) == if keep(name@) {
                prev.filter(keep).push(name@)
            } else {
                prev.filter(keep)
            });
        }
        k = k + 1;
    }
    proof {
        assert(command_names().subrange(0, names@.len() as int) =~= command_names());
    }
    out
}

/// `n` spaces.
pub open spec fn spaces(n: nat) -> Seq<char> {
    Seq::new(n, |i: int| ' ')
}

/// A cell of width `width`: the text padded with spaces when it fits, else
/// cut to `width - 2` characters followed by `..`.
pub open spec fn cell_text(s: Seq<char>, width: nat) -> Seq<char> {
    if s.len() <= width {
        s + spaces((width - s.len()) as nat)
    } else {
        s.take(width - 2) + ".."@
    }
}

/// Fits a text into a table cell of `width` characters.
pub fn truncate(s: &str, width: usize) -> (r: String)
    requires
        s@.len() <= width || width >= 2,
    ensures
        r@ == cell_text(s@, width as nat),
{
    let len = s.unicode_len();
    if len <= width {
        let mut r = String::from_str(s);
        let mut i: usize = 0;
        proof {
            reveal_strlit(" ");
        }
        while i < width - len
            invariant
                len == s@.len(),
                len <= width,
                i <= width - len,
                r@ == s@ + spaces(i as nat),
                " "@ == seq![' '],
            decreases width - len - i,
        {
            r.append(" ");
            assert(spaces(i as nat) + seq![' '] =~= spaces((i + 1) as nat));
            assert(s@ + spaces(i as nat) + seq![' '] =~= s@ + (spaces(i as nat) + seq![' ']));
            i = i + 1;
        }
        r
    } else {
        let head = s.substring_char(0, width - 2);
        String::from_str(head).concat("..")
    }
}

/// One step of greedy wrapping: the finished lines and the line being
/// filled, after one more word.
pub open spec fn wrap_step(
    state: (Seq<Seq<char>>, Seq<char>),
    word: Seq<char>,
    width: nat,
) -> (Seq<Seq<char>>, Seq<char>) {
    let (lines, current) = state;
    if current.len() == 0 {
        (lines, word)
    } else if current.len() + word.len() + 1 <= width {
        (lines, current + seq![' '] + word)
    } else {
        (lines.push(current), word)
    }
}

/// The state of greedy wrapping after all of `words`.
pub open spec fn wrap_state(words: Seq<Seq<char>>, width: nat) -> (Seq<Seq<char>>, Seq<char>)
    decreases words.len(),
{
    if words.len() == 0 {
        (Seq::empty(), Seq::empty())
    } else {
        wrap_step(wrap_state(words.drop_last(), width), words.last(), width)
    }
}

/// The lines of `words` wrapped greedily at `width` characters, words joined
/// by one space; one empty line when there is nothing to show.
pub open spec fn wrapped(words: Seq<Seq<char>>, width: nat) -> Seq<Seq<char>> {
    let (lines, current) = wrap_state(words, width);
    if current.len() > 0 {
        lines.push(current)
    } else if lines.len() == 0 {
        seq![Seq::empty()]
    } else {
        lines
    }
}

/// The texts of a list of strings.
pub open spec fn texts(v: Seq<String>) -> Seq<Seq<char>> {
    v.map_values(|s: String| s@)
}

/// Wraps words into lines of at most `width` characters where they fit.
pub fn wrap_words(words: &Vec<String>, width: usize) -> (r: Vec<String>)
    ensures
        texts(r@) == wrapped(texts(words@), width as nat),
{
    let ghost all = texts(words@);
    let mut lines: Vec<String> = Vec::new();
    let mut current = String::new();
    let mut i: usize = 0;
    while i < words.len()
        invariant
            i <= words@.len(),
            all == texts(words@),
            (texts(lines@), current@) == wrap_state(all.take(i as int), width as nat),
        decreases words@.len() - i,
    {
        let word = &words[i];
        let cur_len = current.as_str().unicode_len();
        let word_len = word.as_str().unicode_len();
        let ghost before = (texts(lines@), current@);
        if cur_len == 0 {
            current = word.clone();
        } else if cur_len as u128 + word_len as u128 + 1 <= width as u128 {
            current.append(" ");
            current.append(word.as_str());
            proof {
                reveal_strlit(" ");
            }
        } else {
            let done = current;
            lines.push(done);
            current = word.clone();
            proof {
                assert(texts(lines@) =~= before.0.push(before.1));
            }
        }
        proof {
            assert(all.take(i as int + 1).drop_last() =~= all.take(i as int));
            assert(all.take(i as int + 1).last() == word@);
        }
        i = i + 1;
    }
    proof {
        assert(all.take(words@.len() as int) =~= all);
    }
    if current.as_str().unicode_len() > 0 {
        lines.push(current);
        proof {
            let (l, c) = wrap_state(all, width as nat);
            assert(texts(lines@) =~= l.push(c));
        }
    } else if lines.len() == 0 {
        lines.push(String::new());
        proof {
            assert(texts(lines@) =~= seq![Seq::<char>::empty()]);
        }
    }
    lines
}

/// The value of a decimal digit character.
pub open spec fn digit_value(c: char) -> int {
    c as int - '0' as int
}

pub open spec fn is_digit(c: char) -> bool {
    '0' <= c && c <= '9'
}

/// The value of a string of decimal digits.
pub open spec fn digits_value(s: Seq<char>) -> int
    decreases s.len(),
{
    if s.len() == 0 {
        0
    } else {
        digits_value(s.drop_last()) * 10 + digit_value(s.last())
    }
}

/// What `i32`'s `from_str` reads: an optional sign, then one or more decimal
/// digits, whose value must lie in the range of `i32`.
pub open spec fn i32_value(s: Seq<char>) -> Option<i32> {
    let body = unsigned_part(s);
    let v = if s.len() > 0 && s[0] == '-' {
        -digits_value(body)
    } else {
        digits_value(body)
    };
    if body.len() > 0 && all_digits(body) && i32::MIN <= v <= i32::MAX {
        Some(v as i32)
    } else {
        None
    }
}

/// The text after an optional leading sign.
pub open spec fn unsigned_part(s: Seq<char>) -> Seq<char> {
    if s.len() > 0 && (s[0] == '-' || s[0] == '+') {
        s.drop_first()
    } else {
        s
    }
}

pub open spec fn all_digits(s: Seq<char>) -> bool {
    forall|i: int| 0 <= i < s.len() ==> is_digit(#[trigger] s[i])
}

/// Digits never lower the value of a digit string as it grows.
proof fn lemma_digits_grow(s: Seq<char>, k: int, j: int)
    requires
        0 <= k <= j <= s.len(),
        forall|i: int| 0 <= i < s.len() ==> is_digit(#[trigger] s[i]),
    ensures
        digits_value(s.take(k)) <= digits_value(s.take(j)),
        0 <= digits_value(s.take(j)),
    decreases j,
{
    if j > 0 {
        lemma_digits_grow(s, if k == j { j - 1 } else { k }, j - 1);
        assert(s.take(j).drop_last() =~= s.take(j - 1));
        assert(s.take(j).last() == s[j - 1]);
    } else {
        assert(s.take(0) =~= Seq::<char>::empty());
    }
}

/// Reads an `i32` the way `i32`'s `from_str` does.
pub fn parse_i32(s: &str) -> (r: Option<i32>)
    ensures
        r == i32_value(s@),
{
    let len = s.unicode_len();
    if len == 0 {
        return None;
    }
    let first = s.get_char(0);
    let negative = first == '-';
    let start: usize = if first == '-' || first == '+' {
        1
    } else {
        0
    };
    let ghost body = s@.subrange(start as int, len as int);
    proof {
        if start == 1 {
            assert(s@.drop_first() =~= body);
        } else {
            assert(s@ =~= body);
        }
    }
    if start == len {
        return None;
    }
    let limit: i64 = if negative {
        2147483648
    } else {
        2147483647
    };
    let mut v: i64 = 0;
    let mut over = false;
    let mut i: usize = start;
    while i < len
        invariant
            start <= i <= len,
            len == s@.len(),
            body == s@.subrange(start as int, len as int),
            forall|j: int| 0 <= j < i - start ==> is_digit(#[trigger] body[j]),
            !over ==> v == digits_value(body.take(i - start)),
            !over ==> v <= limit,
            0 <= v,
            negative == (s@[0] == '-'),
            s@.len() > 0,
            limit == if negative { 2147483648i64 } else { 2147483647i64 },
            body == unsigned_part(s@),
            over ==> digits_value(body.take(i - start)) > limit,
            limit <= 2147483648,
        decreases len - i,
    {
        let c = s.get_char(i);
        if !('0' <= c && c <= '9') {
            proof {
                assert(body[i - start] == c);
                assert(!is_digit(body[i - start]));
                assert(!all_digits(body));
            }
            return None;
        }
        let ghost k = (i - start) as int;
        proof {
            assert(body[k] == c);
            assert(body.take(k + 1).drop_last() =~= body.take(k));
            assert(body.take(k + 1).last() == c);
            assert(forall|j: int| 0 <= j < k ==> body.take(k)[j] == body[j]);
        }
        if !over {
            let d = (c as u32 - '0' as u32) as i64;
            assert(d == digit_value(c) && 0 <= d <= 9);
            assert(v * 10 <= 21474836480) by (nonlinear_arith)
                requires
                    v <= 2147483648,
            ;
            let next = v * 10 + d;
            if next > limit {
                over = true;
            } else {
                v = next;
            }
        } else {
            proof {
                assert(forall|j: int| 0 <= j < k + 1 ==> is_digit(#[trigger] body.take(k + 1)[j]));
                lemma_digits_grow(body.take(k + 1), k, k + 1);
                assert(body.take(k + 1).take(k) =~= body.take(k));
                assert(body.take(k + 1).take(k + 1) =~= body.take(k + 1));
            }
        }
        i = i + 1;
    }
    proof {
        assert(body.take(len - start) =~= body);
        assert(s@.len() > 0);
    }
    if over {
        None
    } else if negative {
        Some((0 - v) as i32)
    } else {
        Some(v as i32)
    }
}

/// The limit of a `list` command: its argument when that is a number, else
/// the default.
pub fn limit_argument(arg: Option<&str>) -> (r: i32)
    ensures
        r == match arg {
            Some(a) => match i32_value(a@) {
                Some(v) => v,
                None => DEFAULT_LIST_LIMIT,
            },
            None => DEFAULT_LIST_LIMIT,
        },
{
    match arg {
        Some(a) => match parse_i32(a) {
            Some(v) => v,
            None => DEFAULT_LIST_LIMIT,
        },
        None => DEFAULT_LIST_LIMIT,
    }
}

/// The commands the client knows.
#[derive(Debug, Clone, Copy, PartialEq, Eq, Structural)]
pub enum CommandName {
    Status,
    Live,
    List,
    Show,
    Analyze,
    Help,
    Exit,
    Unknown,
}

/// `word` names `name`; given on the command line, it may also carry a
/// leading `/`.
pub open spec fn spells(word: Seq<char>, name: Seq<char>, interactive: bool) -> bool {
    word == name || (!interactive && word == seq!['/'] + name)
}

/// The command a word names. On the command line `-h` and `--help` also ask
/// for help; at the prompt `exit`, `quit`, `q` and `bye` end the session.
pub open spec fn command_of(word: Seq<char>, interactive: bool) -> CommandName {
    if spells(word, "status"@, interactive) {
        CommandName::Status
    } else if spells(word, "live"@, interactive) {
        CommandName::Live
    } else if spells(word, "list"@, interactive) {
        CommandName::List
    } else if spells(word, "show"@, interactive) {
        CommandName::Show
    } else if spells(word, "analyze"@, interactive) {
        CommandName::Analyze
    } else if spells(word, "help"@, interactive) || (!interactive && (word == "-h"@ || word
        == "--help"@)) {
        CommandName::Help
    } else if interactive && (word == "exit"@ || word == "quit"@ || word == "q"@ || word
        == "bye"@) {
        CommandName::Exit
    } else {
        CommandName::Unknown
    }
}

/// Whether `word` spells `name`, as `spells` states it.
fn spelled(word: &String, name: &str, interactive: bool) -> (r: bool)
    ensures
        r == spells(word@, name@, interactive),
{
    if *word == String::from_str(name) {
        return true;
    }
    if interactive {
        return false;
    }
    let slashed = String::from_str("/").concat(name);
    proof {
        reveal_strlit("/");
        assert("/"@ =~= seq!['/']);
    }
    assert(slashed@ == seq!['/'] + name@);
    *word == slashed
}

/// Recognises the command a word names.
pub fn command_name(word: &str, interactive: bool) -> (r: CommandName)
    ensures
        r == command_of(word@, interactive),
{
    let w = String::from_str(word);
    if spelled(&w, "status", interactive) {
        CommandName::Status
    } else if spelled(&w, "live", interactive) {
        CommandName::Live
    } else if spelled(&w, "list", interactive) {
        CommandName::List
    } else if spelled(&w, "show", interactive) {
        CommandName::Show
    } else if spelled(&w, "analyze", interactive) {
        CommandName::Analyze
    } else if spelled(&w, "help", interactive) || (!interactive && (w == String::from_str("-h")
        || w == String::from_str("--help"))) {
        CommandName::Help
    } else if interactive && (w == String::from_str("exit") || w == String::from_str("quit") || w
        == String::from_str("q") || w == String::from_str("bye")) {
        CommandName::Exit
    } else {
        CommandName::Unknown
    }
}

} // verus!
