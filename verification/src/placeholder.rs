use vstd::prelude::*;
use vstd::set_lib::{lemma_int_range, lemma_len_subset, set_int_range};
use vstd::utf8::encode_utf8;

verus! {

/// Where a reader of SQL text stands after some of its characters.
#[derive(Clone, Copy, Debug, PartialEq, Eq, Structural)]
pub enum Lex {
    /// In plain SQL.
    Code,
    /// In plain SQL, behind a `-` that may open a line comment.
    Dash,
    /// In plain SQL, behind a `/` that may open a block comment.
    Slash,
    /// Inside `'...'`.
    Single,
    /// Inside `"..."`.
    Double,
    /// Inside `` `...` ``.
    Backtick,
    /// Inside `[...]`.
    Bracket,
    /// Behind `--`, up to the end of the line.
    LineComment,
    /// Inside `/* ... */`.
    BlockComment,
    /// Inside `/* ... */`, behind a `*` that may close it.
    BlockStar,
}

impl Lex {
    /// Whether the reader stands in plain SQL: outside quotes, brackets and
    /// comments. A `?` read there is a placeholder.
    pub open spec fn in_code(self) -> bool {
        self is Code || self is Dash || self is Slash
    }

    /// Where a character read in plain SQL leads.
    pub open spec fn from_code(c: char) -> Lex {
        if c == '\'' {
            Lex::Single
        } else if c == '"' {
            Lex::Double
        } else if c == '`' {
            Lex::Backtick
        } else if c == '[' {
            Lex::Bracket
        } else if c == '-' {
            Lex::Dash
        } else if c == '/' {
            Lex::Slash
        } else {
            Lex::Code
        }
    }

    /// Where the reader stands after one more character. Quoted text ends at
    /// the next quote of its kind, so that a doubled quote ends it and opens
    /// it again; a line comment ends with the line, a block comment at `*/`.
    pub open spec fn step(self, c: char) -> Lex {
        match self {
            Lex::Code => Lex::from_code(c),
            Lex::Dash => if c == '-' {
                Lex::LineComment
            } else {
                Lex::from_code(c)
            },
            Lex::Slash => if c == '*' {
                Lex::BlockComment
            } else {
                Lex::from_code(c)
            },
            Lex::Single => if c == '\'' {
                Lex::Code
            } else {
                Lex::Single
            },
            Lex::Double => if c == '"' {
                Lex::Code
            } else {
                Lex::Double
            },
            Lex::Backtick => if c == '`' {
                Lex::Code
            } else {
                Lex::Backtick
            },
            Lex::Bracket => if c == ']' {
                Lex::Code
            } else {
                Lex::Bracket
            },
            Lex::LineComment => if c == '\n' {
                Lex::Code
            } else {
                Lex::LineComment
            },
            Lex::BlockComment => if c == '*' {
                Lex::BlockStar
            } else {
                Lex::BlockComment
            },
            Lex::BlockStar => if c == '/' {
                Lex::Code
            } else if c == '*' {
                Lex::BlockStar
            } else {
                Lex::BlockComment
            },
        }
    }

    fn reads_code(self) -> (b: bool)
        ensures
            b == self.in_code(),
    {
        match self {
            Lex::Code | Lex::Dash | Lex::Slash => true,
            _ => false,
        }
    }

    fn after_code(c: char) -> (r: Lex)
        ensures
            r == Lex::from_code(c),
    {
        match c {
            '\'' => Lex::Single,
            '"' => Lex::Double,
            '`' => Lex::Backtick,
            '[' => Lex::Bracket,
            '-' => Lex::Dash,
            '/' => Lex::Slash,
            _ => Lex::Code,
        }
    }

    fn next(self, c: char) -> (r: Lex)
        ensures
            r == self.step(c),
    {
        match self {
            Lex::Code => Lex::after_code(c),
            Lex::Dash => if c == '-' {
                Lex::LineComment
            } else {
                Lex::after_code(c)
            },
            Lex::Slash => if c == '*' {
                Lex::BlockComment
            } else {
                Lex::after_code(c)
            },
            Lex::Single => if c == '\'' {
                Lex::Code
            } else {
                Lex::Single
            },
            Lex::Double => if c == '"' {
                Lex::Code
            } else {
                Lex::Double
            },
            Lex::Backtick => if c == '`' {
                Lex::Code
            } else {
                Lex::Backtick
            },
            Lex::Bracket => if c == ']' {
                Lex::Code
            } else {
                Lex::Bracket
            },
            Lex::LineComment => if c == '\n' {
                Lex::Code
            } else {
                Lex::LineComment
            },
            Lex::BlockComment => if c == '*' {
                Lex::BlockStar
            } else {
                Lex::BlockComment
            },
            Lex::BlockStar => if c == '/' {
                Lex::Code
            } else if c == '*' {
                Lex::BlockStar
            } else {
                Lex::BlockComment
            },
        }
    }
}

/// Where a reader stands at the end of `text`, having begun in plain SQL.
pub open spec fn lex_state(text: Seq<char>) -> Lex
    decreases text.len(),
{
    if text.len() == 0 {
        Lex::Code
    } else {
        lex_state(text.drop_last()).step(text.last())
    }
}

/// Whether the character at place `i` of `text` is a positional placeholder:
/// a `?` that stands in plain SQL.
pub open spec fn is_placeholder(text: Seq<char>, i: int) -> bool {
    0 <= i < text.len() && text[i] == '?' && lex_state(text.take(i)).in_code()
}

/// The places of `text` at which a positional placeholder stands.
pub open spec fn placeholder_places(text: Seq<char>) -> Set<int> {
    Set::new(|i: int| is_placeholder(text, i))
}

/// The number of positional placeholders in `text`.
pub open spec fn placeholder_count(text: Seq<char>) -> nat {
    placeholder_places(text).len()
}

/// Whether `c` is a character that, read in plain SQL, leaves the reader in
/// plain SQL and is no placeholder.
pub open spec fn is_plain(c: char) -> bool {
    c != '?' && c != '\'' && c != '"' && c != '`' && c != '[' && c != '-' && c != '/'
}

/// A text has no more characters than its UTF-8 encoding has bytes.
proof fn lemma_chars_fit_in_bytes(text: Seq<char>)
    ensures
        text.len() <= encode_utf8(text).len(),
    decreases text.len(),
{
    if text.len() > 0 {
        lemma_chars_fit_in_bytes(text.drop_first());
    }
}

/// The empty text has no placeholder.
pub proof fn lemma_empty_text()
    ensures
        lex_state(Seq::<char>::empty()) is Code,
        placeholder_count(Seq::<char>::empty()) == 0,
{
    assert(placeholder_places(Seq::<char>::empty()) == Set::<int>::empty());
}

/// A text has finitely many placeholders, and no more than it has
/// characters.
pub proof fn lemma_count_within_length(text: Seq<char>)
    ensures
        placeholder_places(text).finite(),
        placeholder_count(text) <= text.len(),
{
    let places = set_int_range(0, text.len() as int);
    lemma_int_range(0, text.len() as int);
    assert(placeholder_places(text).subset_of(places));
    lemma_len_subset(placeholder_places(text), places);
}

/// Reading one more character: the reader moves by one step, and the count
/// grows by one exactly if that character is a `?` read in plain SQL.
pub proof fn lemma_read_one_more(text: Seq<char>, i: int)
    requires
        0 <= i < text.len(),
    ensures
        lex_state(text.take(i + 1)) == lex_state(text.take(i)).step(text[i]),
        placeholder_count(text.take(i + 1)) == placeholder_count(text.take(i)) + (if text[i] == '?'
            && lex_state(text.take(i)).in_code() {
            1nat
        } else {
            0nat
        }),
{
    let shorter = text.take(i);
    let longer = text.take(i + 1);
    assert(longer.drop_last() == shorter);
    assert(longer.take(i) == shorter);
    assert forall|k: int| 0 <= k < i implies is_placeholder(longer, k) == is_placeholder(
        shorter,
        k,
    ) by {
        assert(longer.take(k) == shorter.take(k));
    }
    lemma_count_within_length(shorter);
    if is_placeholder(longer, i) {
        assert(placeholder_places(longer) == placeholder_places(shorter).insert(i));
    } else {
        assert(placeholder_places(longer) == placeholder_places(shorter));
    }
}

/// A run of plain characters behind plain SQL changes nothing: the reader
/// is in plain SQL at its end, and no placeholder was added.
pub proof fn lemma_plain_run(text: Seq<char>, from: int)
    requires
        0 <= from <= text.len(),
        lex_state(text.take(from)) is Code,
        forall|i: int| from <= i < text.len() ==> is_plain(#[trigger] text[i]),
    ensures
        lex_state(text) is Code,
        placeholder_count(text) == placeholder_count(text.take(from)),
    decreases text.len() - from,
{
    if from == text.len() {
        assert(text.take(from) == text);
    } else {
        let shorter = text.drop_last();
        assert(shorter.take(from) == text.take(from));
        lemma_plain_run(shorter, from);
        lemma_read_one_more(text, text.len() - 1);
        assert(text.take(text.len() - 1) == shorter);
        assert(text.take(text.len() as int) == text);
    }
}

/// Counts the positional placeholders of `sql`: each `?` that stands outside
/// quoted text, bracketed names and comments. A `?` with a number behind it
/// is counted like any other.
pub fn count_placeholders(sql: &str) -> (n: usize)
    ensures
        n == placeholder_count(sql@),
{
    let bytes = sql.as_bytes();
    proof {
        lemma_chars_fit_in_bytes(sql@);
        assert(bytes@.len() == bytes.len());
        assert(sql@.take(0) == Seq::<char>::empty());
        lemma_empty_text();
    }
    let mut state = Lex::Code;
    let mut n: usize = 0;
    for c in it: sql.chars()
        invariant
            it.seq() == sql@,
            sql@.len() <= usize::MAX,
            state == lex_state(sql@.take(it.index() as int)),
            n == placeholder_count(sql@.take(it.index() as int)),
            n <= it.index(),
    {
        proof {
            lemma_read_one_more(sql@, it.index() as int);
        }
        if c == '?' && state.reads_code() {
            n += 1;
        }
        state = state.next(c);
    }
    assert(sql@.take(sql@.len() as int) == sql@);
    n
}

} // verus!
