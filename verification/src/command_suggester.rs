use vstd::prelude::*;
use crate::lexing::{chars_equal, chars_start_with, chars_to_string, split_words, starts_with, str_chars, words};

verus! {

/// Offers completions for what has been typed at the command prompt.
pub struct CommandSuggester;

/// The commands offered, in the order they are listed.
pub open spec fn command_words() -> Seq<Seq<char>> {
    seq!["use"@, "time"@, "rorate"@]
}

/// The arguments offered after `command`, in the order they are listed.
pub open spec fn argument_words(command: Seq<char>) -> Seq<Seq<char>> {
    if command == "time"@ {
        seq!["night"@, "noon"@, "dawn"@, "dusk"@, "toggle"@]
    } else {
        seq![]
    }
}

/// The views of a list of string slices.
pub open spec fn str_views(v: Seq<&str>) -> Seq<Seq<char>> {
    v.map_values(|s: &str| s@)
}

/// `ws` joined with one space between neighbours.
pub open spec fn join_words(ws: Seq<Seq<char>>) -> Seq<char>
    decreases ws.len(),
{
    if ws.len() == 0 {
        seq![]
    } else if ws.len() == 1 {
        ws[0]
    } else {
        join_words(ws.drop_last()) + " "@ + ws.last()
    }
}

/// How a candidate compares with what was typed.
#[derive(Clone, Copy, Debug, PartialEq, Eq, Structural)]
pub enum MatchKind {
    /// The candidate is what was typed.
    Exact,
    /// The candidate begins with what was typed and is longer.
    Prefix,
    /// Neither: the two are compared by similarity.
    Fuzzy,
}

/// How `candidate` compares with `typed`.
pub open spec fn match_kind_of(candidate: Seq<char>, typed: Seq<char>) -> MatchKind {
    if candidate == typed {
        MatchKind::Exact
    } else if starts_with(candidate, typed) {
        MatchKind::Prefix
    } else {
        MatchKind::Fuzzy
    }
}

/// Which list of completions a line of input asks for.
#[derive(Debug, Clone)]
pub enum SuggestionRequest {
    /// Commands, ranked against the text (empty: all of them, unranked).
    Commands(String),
    /// Arguments of the command, ranked against the text (empty: all of them, unranked).
    Arguments(String, String),
    /// Block names, ranked against the text.
    Blocks(String),
    /// No completion applies.
    Nothing,
}

/// A suggestion request with its texts read as character sequences.
pub enum SuggestionTarget {
    Commands(Seq<char>),
    Arguments(Seq<char>, Seq<char>),
    Blocks(Seq<char>),
    Nothing,
}

impl View for SuggestionRequest {
    type V = SuggestionTarget;

    open spec fn view(&self) -> SuggestionTarget {
        match self {
            SuggestionRequest::Commands(t) => SuggestionTarget::Commands(t@),
            SuggestionRequest::Arguments(c, t) => SuggestionTarget::Arguments(c@, t@),
            SuggestionRequest::Blocks(t) => SuggestionTarget::Blocks(t@),
            SuggestionRequest::Nothing => SuggestionTarget::Nothing,
        }
    }
}

/// What the whitespace-separated words of `input` ask to be completed: with no word, a
/// command; with one word, the blocks after `use`, the arguments after another command, and
/// otherwise the commands that resemble it; with more, what follows a known command, the
/// remaining words joined by single spaces.
pub open spec fn request_for(input: Seq<char>) -> SuggestionTarget {
    let ws = words(input);
    if ws.len() == 0 {
        SuggestionTarget::Commands(seq![])
    } else if ws.len() == 1 {
        if ws[0] == "use"@ {
            SuggestionTarget::Blocks(seq![])
        } else if command_words().contains(ws[0]) {
            SuggestionTarget::Arguments(ws[0], seq![])
        } else {
            SuggestionTarget::Commands(ws[0])
        }
    } else {
        let rest = join_words(ws.skip(1));
        if ws[0] == "use"@ {
            SuggestionTarget::Blocks(rest)
        } else if command_words().contains(ws[0]) {
            SuggestionTarget::Arguments(ws[0], rest)
        } else {
            SuggestionTarget::Nothing
        }
    }
}

/// Arguments are offered only after a known command, and block names only after `use`.
pub proof fn law_requests_follow_commands(input: Seq<char>)
    ensures
        request_for(input) matches SuggestionTarget::Arguments(c, _) ==> command_words().contains(c),
        request_for(input) matches SuggestionTarget::Blocks(_) ==> words(input)[0] == "use"@,
        words(input).len() == 0 ==> request_for(input) == SuggestionTarget::Commands(seq![]),
{
}

/// How `candidate` compares with `typed`.
pub fn match_kind(candidate: &str, typed: &str) -> (r: MatchKind)
    ensures
        r == match_kind_of(candidate@, typed@),
{
    let c = str_chars(candidate);
    let t = str_chars(typed);
    if chars_equal(&c, &t) {
        MatchKind::Exact
    } else if chars_start_with(&c, &t) {
        MatchKind::Prefix
    } else {
        MatchKind::Fuzzy
    }
}

/// The words of `ws` from `from` on, joined with one space between neighbours.
fn join_from(ws: &Vec<Vec<char>>, from: usize) -> (r: Vec<char>)
    requires
        from <= ws@.len(),
    ensures
        r@ == join_words(ws@.skip(from as int).map_values(|w: Vec<char>| w@)),
{
    let ghost views = ws@.map_values(|w: Vec<char>| w@);
    let mut r: Vec<char> = Vec::new();
    let mut i = from;
    assert(views.skip(from as int).take(0) =~= Seq::<Seq<char>>::empty());
    while i < ws.len()
        invariant
            from <= i <= ws@.len(),
            views == ws@.map_values(|w: Vec<char>| w@),
            r@ == join_words(views.skip(from as int).take(i - from)),
        decreases ws@.len() - i,
    {
        let ghost before = views.skip(from as int).take(i - from);
        let ghost after = views.skip(from as int).take(i - from + 1);
        assert(after.drop_last() =~= before);
        assert(after.last() == ws@[i as int]@);
        if i > from {
            r.push(' ');
        }
        let w = &ws[i];
        let mut k: usize = 0;
        let ghost start = r@;
        while k < w.len()
            invariant
                k <= w@.len(),
                r@ == start + w@.take(k as int),
            decreases w@.len() - k,
        {
            r.push(w[k]);
            k = k + 1;
            assert(r@ =~= start + w@.take(k as int));
        }
        assert(w@.take(w@.len() as int) =~= w@);
        proof {
            if i > from {
                assert(r@ =~= join_words(before) + " "@ + after.last()) by {
                    reveal_strlit(" ");
                }
            } else {
                assert(before =~= Seq::<Seq<char>>::empty());
                assert(r@ =~= after[0]);
            }
        }
        i = i + 1;
    }
    assert(views.skip(from as int).take(ws@.len() - from) =~= views.skip(from as int));
    assert(views.skip(from as int) =~= ws@.skip(from as int).map_values(|w: Vec<char>| w@));
    r
}

impl CommandSuggester {
    /// The commands offered, in order.
    pub fn get_available_commands() -> (r: Vec<&'static str>)
        ensures
            str_views(r@) == command_words(),
    {
        let r: Vec<&'static str> = vec!["use", "time", "rorate"];
        proof {
            assert(str_views(r@) =~= command_words());
        }
        r
    }

    /// The arguments offered after `command`, in order.
    pub fn get_available_arguments(command: &str) -> (r: Vec<&'static str>)
        ensures
            str_views(r@) == argument_words(command@),
    {
        let c = str_chars(command);
        if chars_equal(&c, &str_chars("time")) {
            let r: Vec<&'static str> = vec!["night", "noon", "dawn", "dusk", "toggle"];
            proof {
                assert(str_views(r@) =~= argument_words(command@));
            }
            r
        } else {
            let r: Vec<&'static str> = Vec::new();
            proof {
                assert(str_views(r@) =~= argument_words(command@));
            }
            r
        }
    }

    /// Whether `word` is one of the commands offered.
    fn is_command(word: &Vec<char>) -> (r: bool)
        ensures
            r == command_words().contains(word@),
    {
        let commands = Self::get_available_commands();
        let mut i: usize = 0;
        while i < commands.len()
            invariant
                i <= commands@.len(),
                str_views(commands@) == command_words(),
                forall|k: int| 0 <= k < i ==> command_words()[k] != word@,
            decreases commands@.len() - i,
        {
            if chars_equal(&str_chars(commands[i]), word) {
                assert(command_words()[i as int] == word@);
                return true;
            }
            i = i + 1;
        }
        proof {
            if command_words().contains(word@) {
                let k = choose|k: int| 0 <= k < command_words().len() && command_words()[k] == word@;
                assert(command_words()[k] != word@);
            }
        }
        false
    }

    /// Which completions `input` asks for.
    pub fn request(input: &str) -> (r: SuggestionRequest)
        ensures
            r@ == request_for(input@),
    {
        let chars = str_chars(input);
        let parts = split_words(&chars);
        let ghost ws = words(input@);
        assert(parts@.map_values(|w: Vec<char>| w@) =~= ws);
        if parts.len() == 0 {
            return SuggestionRequest::Commands(String::new());
        }
        let first = &parts[0];
        let is_use = chars_equal(first, &str_chars("use"));
        proof {
            reveal_strlit("use");
            assert(first@ == ws[0]);
            assert(parts@.skip(1).map_values(|w: Vec<char>| w@) =~= ws.skip(1));
        }
        if parts.len() == 1 {
            if is_use {
                SuggestionRequest::Blocks(String::new())
            } else if Self::is_command(first) {
                SuggestionRequest::Arguments(chars_to_string(first), String::new())
            } else {
                SuggestionRequest::Commands(chars_to_string(first))
            }
        } else {
            let rest = join_from(&parts, 1);
            if is_use {
                SuggestionRequest::Blocks(chars_to_string(&rest))
            } else if Self::is_command(first) {
                SuggestionRequest::Arguments(chars_to_string(first), chars_to_string(&rest))
            } else {
                SuggestionRequest::Nothing
            }
        }
    }
}

} // verus!
