//! Pipe syntax configuration: the magrittr pipe `%>%` or the native pipe
//! `|>`, their names and messages, and reading the choice from text.

use crate::text::{
    ascii_lower, chars_of, contains, occurs_at, str_contains, str_eq, string_of_chars, string_of_str, trim,
    trim_chars, trim_end, trim_start,
};
use vstd::prelude::*;
use vstd::string::*;

verus! {

/// Supported pipe syntaxes.
#[derive(Debug, Clone, Copy, PartialEq, Eq, Hash, Structural)]
pub enum PipeSyntax {
    Magrittr,
    Native,
}

/// The name of the environment variable that selects the pipe syntax.
pub open spec fn env_var_name() -> Seq<char> {
    "DPLYR_PIPE_SYNTAX"@
}

/// The name of the environment variable that selects the pipe syntax.
pub fn pipe_syntax_env_var() -> (r: &'static str)
    ensures
        r@ == env_var_name(),
{
    "DPLYR_PIPE_SYNTAX"
}

/// The operator spelling of a syntax.
pub open spec fn operator_of(p: PipeSyntax) -> Seq<char> {
    match p {
        PipeSyntax::Magrittr => "%>%"@,
        PipeSyntax::Native => "|>"@,
    }
}

/// The other syntax.
pub open spec fn opposite_of(p: PipeSyntax) -> PipeSyntax {
    match p {
        PipeSyntax::Magrittr => PipeSyntax::Native,
        PipeSyntax::Native => PipeSyntax::Magrittr,
    }
}

/// The other syntax differs, and the other of the other is the syntax itself.
pub proof fn law_opposite_is_an_involution(p: PipeSyntax)
    ensures
        opposite_of(p) != p,
        opposite_of(opposite_of(p)) == p,
{
}

/// The message for a syntax seen while disabled.
pub open spec fn disabled_message_of(p: PipeSyntax) -> Seq<char> {
    match p {
        PipeSyntax::Magrittr => "Magrittr pipe is not enabled"@,
        PipeSyntax::Native => "Native pipe is not enabled"@,
    }
}

/// The configuration value of a syntax.
pub open spec fn config_value_of(p: PipeSyntax) -> Seq<char> {
    match p {
        PipeSyntax::Magrittr => "magrittr"@,
        PipeSyntax::Native => "native"@,
    }
}

/// The variant name of a syntax.
pub open spec fn rust_variant_of(p: PipeSyntax) -> Seq<char> {
    match p {
        PipeSyntax::Magrittr => "Magrittr"@,
        PipeSyntax::Native => "Native"@,
    }
}

/// The guidance for enabling a syntax.
pub open spec fn suggestion_of(p: PipeSyntax) -> Seq<char> {
    "Set "@ + env_var_name() + "="@ + config_value_of(p)
        + " before process start or use an explicit pipe syntax API with PipeSyntax::"@ + rust_variant_of(p)
}

/// The error text for a syntax seen while disabled.
pub open spec fn disabled_error_of(p: PipeSyntax) -> Seq<char> {
    disabled_message_of(p) + ". "@ + suggestion_of(p)
}

/// What parsing a pipe syntax name yields: the syntax its trimmed,
/// ASCII-lower-cased form names, or the error message.
pub open spec fn parse_pipe_syntax_spec(value: Seq<char>) -> Result<PipeSyntax, Seq<char>> {
    let l = trim(value).map_values(|c: char| ascii_lower(c));
    if l == "magrittr"@ || l == "%>%"@ {
        Ok(PipeSyntax::Magrittr)
    } else if l == "native"@ || l == "|>"@ {
        Ok(PipeSyntax::Native)
    } else {
        Err("Invalid pipe syntax '"@ + l + "'. Expected 'magrittr' or 'native'"@)
    }
}

/// A syntax's configuration value and its operator both parse back to it.
pub proof fn law_names_parse_back(p: PipeSyntax)
    ensures
        parse_pipe_syntax_spec(config_value_of(p)) == Ok::<PipeSyntax, Seq<char>>(p),
        parse_pipe_syntax_spec(operator_of(p)) == Ok::<PipeSyntax, Seq<char>>(p),
{
    reveal_strlit("magrittr");
    reveal_strlit("native");
    reveal_strlit("%>%");
    reveal_strlit("|>");
    let names = seq![config_value_of(p), operator_of(p)];
    assert forall|k: int| 0 <= k < 2 implies trim(#[trigger] names[k]) == names[k]
        && names[k].map_values(|c: char| ascii_lower(c)) == names[k] by {
        let w = names[k];
        assert(trim_start(w) == w);
        assert(trim_end(w) == w);
        assert(w.map_values(|c: char| ascii_lower(c)) =~= w);
    }
    assert(names[0] == config_value_of(p));
    assert(names[1] == operator_of(p));
}

/// What the environment holds for the pipe syntax variable.
#[derive(Debug, Clone, PartialEq, Eq)]
pub enum EnvSetting {
    NotPresent,
    NotUnicode,
    Value(String),
}

/// What reading the pipe syntax from a setting yields: nothing when absent,
/// an error when not Unicode, else the parsed value.
pub open spec fn from_env_spec(setting: EnvSetting) -> Result<Option<PipeSyntax>, Seq<char>> {
    match setting {
        EnvSetting::NotPresent => Ok(None),
        EnvSetting::NotUnicode => Err(env_var_name() + " must be valid Unicode with value 'magrittr' or 'native'"@),
        EnvSetting::Value(v) => match parse_pipe_syntax_spec(v@) {
            Ok(p) => Ok(Some(p)),
            Err(e) => Err(e),
        },
    }
}

/// ASCII lower-casing of the characters of `v`.
fn ascii_lower_exec(v: &Vec<char>) -> (r: Vec<char>)
    ensures
        r@ == v@.map_values(|c: char| ascii_lower(c)),
{
    let mut out: Vec<char> = Vec::new();
    let mut i: usize = 0;
    while i < v.len()
        invariant
            i <= v.len(),
            out@ == v@.take(i as int).map_values(|c: char| ascii_lower(c)),
        decreases v.len() - i,
    {
        let c = v[i];
        let l = if 'A' <= c && c <= 'Z' { (((c as u32) + 32) as u8) as char } else { c };
        out.push(l);
        assert(v@.take(i as int + 1).map_values(|c: char| ascii_lower(c)) =~= v@.take(i as int).map_values(
            |c: char| ascii_lower(c),
        ).push(ascii_lower(c)));
        i = i + 1;
    }
    assert(v@.take(v.len() as int) =~= v@);
    out
}

impl PipeSyntax {
    /// The operator spelling accepted in this mode.
    pub fn operator(self) -> (r: &'static str)
        ensures
            r@ == operator_of(self),
    {
        match self {
            PipeSyntax::Magrittr => "%>%",
            PipeSyntax::Native => "|>",
        }
    }

    /// The other pipe syntax.
    pub fn opposite(self) -> (r: Self)
        ensures
            r == opposite_of(self),
    {
        match self {
            PipeSyntax::Magrittr => PipeSyntax::Native,
            PipeSyntax::Native => PipeSyntax::Magrittr,
        }
    }

    /// The message for this syntax seen while disabled.
    pub fn disabled_message(self) -> (r: &'static str)
        ensures
            r@ == disabled_message_of(self),
    {
        match self {
            PipeSyntax::Magrittr => "Magrittr pipe is not enabled",
            PipeSyntax::Native => "Native pipe is not enabled",
        }
    }

    /// The configuration value of this syntax.
    pub fn config_value(self) -> (r: &'static str)
        ensures
            r@ == config_value_of(self),
    {
        match self {
            PipeSyntax::Magrittr => "magrittr",
            PipeSyntax::Native => "native",
        }
    }

    /// The variant name of this syntax.
    pub fn rust_variant(self) -> (r: &'static str)
        ensures
            r@ == rust_variant_of(self),
    {
        match self {
            PipeSyntax::Magrittr => "Magrittr",
            PipeSyntax::Native => "Native",
        }
    }

    /// Guidance for enabling this syntax.
    pub fn disabled_suggestion(self) -> (r: String)
        ensures
            r@ == suggestion_of(self),
    {
        let mut s = string_of_str("Set ");
        s.append(pipe_syntax_env_var());
        s.append("=");
        s.append(self.config_value());
        s.append(" before process start or use an explicit pipe syntax API with PipeSyntax::");
        s.append(self.rust_variant());
        s
    }

    /// The error text for this syntax seen while disabled.
    pub fn disabled_error(self) -> (r: String)
        ensures
            r@ == disabled_error_of(self),
    {
        let mut s = string_of_str(self.disabled_message());
        s.append(". ");
        let g = self.disabled_suggestion();
        s.append(g.as_str());
        s
    }

    /// Parses a pipe syntax name: `magrittr` or `%>%`, `native` or `|>`,
    /// ignoring surrounding white space and ASCII case.
    pub fn parse_value(value: &str) -> (r: Result<PipeSyntax, String>)
        ensures
            match r {
                Ok(p) => parse_pipe_syntax_spec(value@) == Ok::<PipeSyntax, Seq<char>>(p),
                Err(e) => parse_pipe_syntax_spec(value@) == Err::<PipeSyntax, Seq<char>>(e@),
            },
    {
        let v = chars_of(value);
        let t = trim_chars(&v);
        let l = ascii_lower_exec(&t);
        let ls = string_of_chars(&l);
        let s = ls.as_str();
        if str_eq(s, "magrittr") || str_eq(s, "%>%") {
            Ok(PipeSyntax::Magrittr)
        } else if str_eq(s, "native") || str_eq(s, "|>") {
            Ok(PipeSyntax::Native)
        } else {
            let mut m = string_of_str("Invalid pipe syntax '");
            m.append(s);
            m.append("'. Expected 'magrittr' or 'native'");
            Err(m)
        }
    }

    /// The pipe syntax a setting of the environment variable selects.
    pub fn from_env(setting: EnvSetting) -> (r: Result<Option<PipeSyntax>, String>)
        ensures
            match r {
                Ok(p) => from_env_spec(setting) == Ok::<Option<PipeSyntax>, Seq<char>>(p),
                Err(e) => from_env_spec(setting) == Err::<Option<PipeSyntax>, Seq<char>>(e@),
            },
    {
        match setting {
            EnvSetting::NotPresent => Ok(None),
            EnvSetting::NotUnicode => {
                let mut m = string_of_str(pipe_syntax_env_var());
                m.append(" must be valid Unicode with value 'magrittr' or 'native'");
                Err(m)
            },
            EnvSetting::Value(v) => match PipeSyntax::parse_value(v.as_str()) {
                Ok(p) => Ok(Some(p)),
                Err(e) => Err(e),
            },
        }
    }

    /// The pipe syntax a setting selects, magrittr when it is absent.
    pub fn from_env_or_default(setting: EnvSetting) -> (r: Result<PipeSyntax, String>)
        ensures
            match r {
                Ok(p) => from_env_spec(setting) matches Ok(o) && p == match o {
                    Some(q) => q,
                    None => PipeSyntax::Magrittr,
                },
                Err(e) => from_env_spec(setting) == Err::<Option<PipeSyntax>, Seq<char>>(e@),
            },
    {
        match PipeSyntax::from_env(setting) {
            Ok(Some(p)) => Ok(p),
            Ok(None) => Ok(PipeSyntax::Magrittr),
            Err(e) => Err(e),
        }
    }
}

impl Default for PipeSyntax {
    fn default() -> (p: Self)
        ensures
            p == PipeSyntax::Magrittr,
    {
        PipeSyntax::Magrittr
    }
}

impl std::str::FromStr for PipeSyntax {
    type Err = String;

    fn from_str(value: &str) -> (r: Result<Self, Self::Err>)
        ensures
            match r {
                Ok(p) => parse_pipe_syntax_spec(value@) == Ok::<PipeSyntax, Seq<char>>(p),
                Err(e) => parse_pipe_syntax_spec(value@) == Err::<PipeSyntax, Seq<char>>(e@),
            },
    {
        PipeSyntax::parse_value(value)
    }
}

/// The guidance for the disabled pipe an error message mentions, if any:
/// the native pipe's first, then magrittr's.
pub open spec fn suggestion_for_error_spec(message: Seq<char>) -> Option<Seq<char>> {
    if contains(message, disabled_message_of(PipeSyntax::Native)) {
        Some(suggestion_of(PipeSyntax::Native))
    } else if contains(message, disabled_message_of(PipeSyntax::Magrittr)) {
        Some(suggestion_of(PipeSyntax::Magrittr))
    } else {
        None
    }
}

/// `c` occurs nowhere in `s`.
pub open spec fn lacks_char(s: Seq<char>, c: char) -> bool {
    forall|j: int| 0 <= j < s.len() ==> s[j] != c
}

proof fn lemma_lacks_char_concat(a: Seq<char>, b: Seq<char>, c: char)
    requires
        lacks_char(a, c),
        lacks_char(b, c),
    ensures
        lacks_char(a + b, c),
{
    assert forall|j: int| 0 <= j < (a + b).len() implies (a + b)[j] != c by {
        if j >= a.len() {
            assert((a + b)[j] == b[j - a.len()]);
        }
    }
}

/// The error text of a disabled syntax leads back to that syntax's own
/// guidance, not the other syntax's.
pub proof fn law_disabled_error_leads_to_its_suggestion(p: PipeSyntax)
    ensures
        suggestion_for_error_spec(disabled_error_of(p)) == Some(suggestion_of(p)),
{
    let e = disabled_error_of(p);
    let m = disabled_message_of(p);
    assert(e.subrange(0, m.len() as int) =~= m);
    assert(occurs_at(e, m, 0));
    if p == PipeSyntax::Magrittr {
        reveal_strlit("Magrittr pipe is not enabled");
        reveal_strlit(". ");
        reveal_strlit("Set ");
        reveal_strlit("DPLYR_PIPE_SYNTAX");
        reveal_strlit("=");
        reveal_strlit("magrittr");
        reveal_strlit(" before process start or use an explicit pipe syntax API with PipeSyntax::");
        reveal_strlit("Magrittr");
        reveal_strlit("Native pipe is not enabled");
        let pieces = seq![
            "Magrittr pipe is not enabled"@, ". "@, "Set "@, "DPLYR_PIPE_SYNTAX"@, "="@, "magrittr"@,
            " before process start or use an explicit pipe syntax API with PipeSyntax::"@, "Magrittr"@,
        ];
        assert(lacks_char(pieces[0], 'v'));
        assert(lacks_char(pieces[1], 'v'));
        assert(lacks_char(pieces[2], 'v'));
        assert(lacks_char(pieces[3], 'v'));
        assert(lacks_char(pieces[4], 'v'));
        assert(lacks_char(pieces[5], 'v'));
        assert(lacks_char(pieces[6], 'v'));
        assert(lacks_char(pieces[7], 'v'));
        let mut acc = pieces[0];
        lemma_lacks_char_concat(acc, pieces[1], 'v');
        acc = acc + pieces[1];
        lemma_lacks_char_concat(acc, pieces[2], 'v');
        acc = acc + pieces[2];
        lemma_lacks_char_concat(acc, pieces[3], 'v');
        acc = acc + pieces[3];
        lemma_lacks_char_concat(acc, pieces[4], 'v');
        acc = acc + pieces[4];
        lemma_lacks_char_concat(acc, pieces[5], 'v');
        acc = acc + pieces[5];
        lemma_lacks_char_concat(acc, pieces[6], 'v');
        acc = acc + pieces[6];
        lemma_lacks_char_concat(acc, pieces[7], 'v');
        acc = acc + pieces[7];
        assert(acc =~= e);
        let n = disabled_message_of(PipeSyntax::Native);
        assert(n[4] == 'v');
        if contains(e, n) {
            let i = choose|i: int| occurs_at(e, n, i);
            assert(e.subrange(i, i + n.len())[4] == e[i + 4]);
        }
    }
}

/// The guidance for the disabled pipe an error message mentions, if any.
pub fn disabled_pipe_suggestion_for_error(message: &str) -> (r: Option<String>)
    ensures
        match r {
            Some(s) => suggestion_for_error_spec(message@) == Some(s@),
            None => suggestion_for_error_spec(message@) is None,
        },
{
    if str_contains(message, PipeSyntax::Native.disabled_message()) {
        Some(PipeSyntax::Native.disabled_suggestion())
    } else if str_contains(message, PipeSyntax::Magrittr.disabled_message()) {
        Some(PipeSyntax::Magrittr.disabled_suggestion())
    } else {
        None
    }
}

} // verus!
