//! The line tokenizer: a command name followed by quote-aware arguments.

use vstd::prelude::*;
use vstd::std_specs::iter::IteratorSpec;

verus! {

/// The state of the argument scanner: the arguments completed so far, the
/// argument being collected, and whether the scanner is inside quotes.
pub struct Scan {
    pub done: Seq<Seq<char>>,
    pub current: Seq<char>,
    pub quoted: bool,
}

/// The arguments of a scanner state once the pending argument, if any, is
/// completed.
pub open spec fn flushed(s: Scan) -> Seq<Seq<char>> {
    if s.current.len() > 0 {
        s.done.push(s.current)
    } else {
        s.done
    }
}

/// One step of the scanner. An unquoted space and a double quote both end the
/// pending argument, and the quote also toggles the quoted region. Every other
/// character joins the pending argument.
pub open spec fn scan_step(s: Scan, c: char) -> Scan {
    if c == ' ' && !s.quoted {
        Scan { done: flushed(s), current: Seq::empty(), quoted: s.quoted }
    } else if c == '"' {
        Scan { done: flushed(s), current: Seq::empty(), quoted: !s.quoted }
    } else {
        Scan { done: s.done, current: s.current.push(c), quoted: s.quoted }
    }
}

/// The scanner state after reading all of `text`.
pub open spec fn scan(text: Seq<char>) -> Scan
    decreases text.len(),
{
    if text.len() == 0 {
        Scan { done: Seq::empty(), current: Seq::empty(), quoted: false }
    } else {
        scan_step(scan(text.drop_last()), text.last())
    }
}

/// The arguments held by an argument region.
pub open spec fn split_args(text: Seq<char>) -> Seq<Seq<char>> {
    flushed(scan(text))
}

/// The length of the head token: the position of the first space, or the
/// length of the line where it holds no space.
pub open spec fn head_len(line: Seq<char>) -> int
    decreases line.len(),
{
    if line.len() == 0 || line[0] == ' ' {
        0
    } else {
        1 + head_len(line.drop_first())
    }
}

/// What a line tokenizes to: the command name and its arguments, or `None`
/// where the head token is empty.
pub open spec fn tokenize(line: Seq<char>) -> Option<(Seq<char>, Seq<Seq<char>>)> {
    let k = head_len(line);
    if k == 0 {
        None
    } else if k == line.len() {
        Some((line, Seq::empty()))
    } else {
        Some((line.take(k), split_args(line.skip(k + 1))))
    }
}

/// An argument as the scanner emits it: not empty, and free of quotes.
pub open spec fn clean(arg: Seq<char>) -> bool {
    arg.len() > 0 && !arg.contains('"')
}

/// While scanning, every completed argument is clean and the pending one
/// holds no quote.
proof fn lemma_scan_clean(text: Seq<char>)
    ensures
        forall|i: int| 0 <= i < scan(text).done.len() ==> clean(#[trigger] scan(text).done[i]),
        !scan(text).current.contains('"'),
    decreases text.len(),
{
    if text.len() > 0 {
        let before = scan(text.drop_last());
        lemma_scan_clean(text.drop_last());
        let c = text.last();
        if (c == ' ' && !before.quoted) || c == '"' {
            assert forall|i: int| 0 <= i < flushed(before).len() implies clean(
                #[trigger] flushed(before)[i],
            ) by {
                if i < before.done.len() {
                    assert(clean(before.done[i]));
                }
            }
        } else {
            let pending = before.current.push(c);
            assert forall|k: int| 0 <= k < pending.len() implies pending[k] != '"' by {
                if k < before.current.len() {
                    assert(before.current.contains(before.current[k]));
                }
            }
        }
    }
}

/// No argument of an argument region is empty, and none holds a double
/// quote: separators that follow one another produce nothing.
pub proof fn lemma_arguments_clean(text: Seq<char>)
    ensures
        forall|i: int| 0 <= i < split_args(text).len() ==> clean(#[trigger] split_args(text)[i]),
{
    lemma_scan_clean(text);
    let st = scan(text);
    assert forall|i: int| 0 <= i < split_args(text).len() implies clean(
        #[trigger] split_args(text)[i],
    ) by {
        if i < st.done.len() {
            assert(clean(st.done[i]));
        }
    }
}

/// Whether the character at `i` of an argument region separates arguments: a
/// double quote always does, and a space does outside quotes.
pub open spec fn separates(text: Seq<char>, i: int) -> bool {
    text[i] == '"' || (text[i] == ' ' && !scan(text.take(i)).quoted)
}

/// The characters of an argument region that are no separators, in order.
pub open spec fn content(text: Seq<char>) -> Seq<char>
    decreases text.len(),
{
    if text.len() == 0 {
        Seq::empty()
    } else if separates(text, text.len() - 1) {
        content(text.drop_last())
    } else {
        content(text.drop_last()).push(text.last())
    }
}

/// The arguments written one after another.
pub open spec fn concat(args: Seq<Seq<char>>) -> Seq<char>
    decreases args.len(),
{
    if args.len() == 0 {
        Seq::empty()
    } else {
        concat(args.drop_last()) + args.last()
    }
}

/// While scanning, the completed arguments and the pending one hold what was
/// read but for the separators.
proof fn lemma_scan_keeps_content(text: Seq<char>)
    ensures
        concat(scan(text).done) + scan(text).current == content(text),
    decreases text.len(),
{
    if text.len() > 0 {
        let before = scan(text.drop_last());
        lemma_scan_keeps_content(text.drop_last());
        assert(text.take(text.len() - 1) =~= text.drop_last());
        if separates(text, text.len() - 1) && before.current.len() > 0 {
            assert(before.done.push(before.current).drop_last() =~= before.done);
        }
    }
}

/// Only separators are lost: the arguments of an argument region, written one
/// after another, are the region without its quotes and its unquoted spaces.
/// A space between quotes is therefore kept in its argument.
pub proof fn lemma_content_kept(text: Seq<char>)
    ensures
        concat(split_args(text)) == content(text),
{
    lemma_scan_keeps_content(text);
    let st = scan(text);
    if st.current.len() > 0 {
        assert(st.done.push(st.current).drop_last() =~= st.done);
    }
}

/// The message of the error returned for a line without a command name.
pub open spec fn empty_input_message() -> Seq<char> {
    "no command provided"@
}

/// Where reading a line stands after a prefix of it: still inside the head
/// token, or past the separator that ended it.
spec fn reading(prefix: Seq<char>, in_head: bool, name: Seq<char>, st: Scan) -> bool {
    let k = head_len(prefix);
    if in_head {
        &&& k == prefix.len()
        &&& name == prefix
        &&& st == scan(Seq::empty())
    } else {
        &&& k < prefix.len()
        &&& name == prefix.take(k)
        &&& st == scan(prefix.skip(k + 1))
    }
}

/// The head token ends inside the line.
pub proof fn lemma_head_len_bounds(line: Seq<char>)
    ensures
        0 <= head_len(line) <= line.len(),
    decreases line.len(),
{
    if line.len() > 0 && line[0] != ' ' {
        lemma_head_len_bounds(line.drop_first());
    }
}

/// The head token holds no space, and a space follows it where the line goes
/// on.
pub proof fn lemma_head_is_token(line: Seq<char>)
    ensures
        !line.take(head_len(line)).contains(' '),
        head_len(line) < line.len() ==> line[head_len(line)] == ' ',
    decreases line.len(),
{
    lemma_head_len_bounds(line);
    let k = head_len(line);
    if line.len() > 0 && line[0] != ' ' {
        lemma_head_is_token(line.drop_first());
        let rest = line.drop_first().take(k - 1);
        lemma_head_len_bounds(line.drop_first());
        assert forall|i: int| 0 <= i < k implies line.take(k)[i] != ' ' by {
            if i > 0 {
                assert(rest.contains(rest[i - 1]));
            }
        }
    }
}

/// How the head token of a prefix changes when one more character is read:
/// once the separator was seen it stays, and before that it grows by every
/// character but a space.
proof fn lemma_head_len_push(prefix: Seq<char>, c: char)
    ensures
        head_len(prefix) < prefix.len() ==> head_len(prefix.push(c)) == head_len(prefix),
        head_len(prefix) == prefix.len() && c != ' ' ==> head_len(prefix.push(c)) == prefix.len()
            + 1,
        head_len(prefix) == prefix.len() && c == ' ' ==> head_len(prefix.push(c)) == prefix.len(),
    decreases prefix.len(),
{
    lemma_head_len_bounds(prefix);
    if prefix.len() == 0 {
        assert(prefix.push(c).drop_first() =~= prefix);
    } else if prefix[0] == ' ' {
    } else {
        lemma_head_len_push(prefix.drop_first(), c);
        assert(prefix.push(c).drop_first() =~= prefix.drop_first().push(c));
    }
}

/// Splits a line into the command name and its arguments.
///
/// The name is everything before the first space. The rest is scanned for
/// arguments: unquoted spaces separate them, a double quote ends the pending
/// argument and toggles a region in which spaces are kept. A line whose name
/// would be empty is rejected.
pub fn parse_line(line: String) -> (outcome: Result<(String, Vec<String>), String>)
    ensures
        match tokenize(line@) {
            Some((name, args)) => outcome matches Ok(parsed) && parsed.0@ == name
                && parsed.1.deep_view() == args,
            None => outcome matches Err(message) && message@ == empty_input_message(),
        },
        outcome matches Ok(parsed) ==> parsed.0@.len() > 0 && !parsed.0@.contains(' ')
            && forall|i: int| 0 <= i < parsed.1.len() ==> clean(#[trigger] parsed.1[i]@),
{
    let mut name = String::new();
    let mut args: Vec<String> = Vec::new();
    let mut current = String::new();
    let mut quoted = false;
    let mut in_head = true;
    let mut chars = line.as_str().chars();
    let ghost mut seen: Seq<char> = Seq::empty();
    assert(args.deep_view() =~= Seq::<Seq<char>>::empty());
    loop
        invariant
            chars.obeys_prophetic_iter_laws(),
            chars.decrease() is Some,
            seen + chars.remaining() == line@,
            reading(
                seen,
                in_head,
                name@,
                Scan { done: args.deep_view(), current: current@, quoted },
            ),
        ensures
            seen == line@,
        decreases chars.decrease()->0,
    {
        let ghost st = Scan { done: args.deep_view(), current: current@, quoted };
        let next = chars.next();
        let c = match next {
            Some(c) => c,
            None => {
                break ;
            },
        };
        proof {
            lemma_head_len_bounds(seen);
            lemma_head_len_push(seen, c);
            let k = head_len(seen);
            if !in_head {
                assert(seen.push(c).skip(k + 1).drop_last() =~= seen.skip(k + 1));
                assert(seen.push(c).take(k) =~= seen.take(k));
            } else if c == ' ' {
                assert(seen.push(c).take(k) =~= seen);
            }
            seen = seen.push(c);
        }
        if in_head {
            if c == ' ' {
                in_head = false;
            } else {
                name.push(c);
            }
        } else if (c == ' ' && !quoted) || c == '"' {
            if c == '"' {
                quoted = !quoted;
            }
            if !current.as_str().is_empty() {
                args.push(current);
                current = String::new();
                assert(args.deep_view() =~= st.done.push(st.current));
            }
        } else {
            current.push(c);
        }
    }
    proof {
        lemma_head_len_bounds(line@);
    }
    if name.as_str().is_empty() {
        return Err("no command provided".to_owned());
    }
    if !current.as_str().is_empty() {
        let ghost done = args.deep_view();
        let ghost last = current@;
        args.push(current);
        assert(args.deep_view() =~= done.push(last));
    }
    proof {
        lemma_head_is_token(line@);
        let k = head_len(line@);
        if k < line@.len() {
            lemma_arguments_clean(line@.skip(k + 1));
        }
        assert(name@ == line@.take(k));
        assert forall|i: int| 0 <= i < args.len() implies clean(#[trigger] args[i]@) by {
            assert(args[i]@ == args.deep_view()[i]);
        }
    }
    Ok((name, args))
}

} // verus!
