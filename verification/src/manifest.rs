//! Host manifests: what a host is to be set up with.
use vstd::prelude::*;

use crate::table::Table;
use crate::text::{lowercase, same, to_lowercase};

verus! {

/// The labels, actors, capability providers and bindings of a host
pub struct HostManifest {
    pub labels: Table<String, String>,
    pub actors: Vec<String>,
    pub capabilities: Vec<Capability>,
    pub bindings: Vec<BindingEntry>,
}

/// A capability provider in a manifest
pub struct Capability {
    pub path: String,
    pub binding_name: Option<String>,
}

/// A binding in a manifest
pub struct BindingEntry {
    pub actor: String,
    pub capability: String,
    pub binding: Option<String>,
    pub values: Option<Table<String, String>>,
}

/// The form in which a manifest is written
#[derive(Debug, Clone, Copy, PartialEq, Eq, Structural)]
pub enum ManifestFormat {
    Yaml,
    Json,
}

/// The form of a manifest whose path has the given extension.
pub open spec fn format_for(extension: Option<Seq<char>>) -> ManifestFormat {
    match extension {
        Some(e) => if lowercase(e) == "yaml"@ || lowercase(e) == "yml"@ {
            ManifestFormat::Yaml
        } else {
            ManifestFormat::Json
        },
        None => ManifestFormat::Yaml,
    }
}

/// Where in a text an expansion is: in plain text, behind a dollar sign, in the name of a
/// variable, or in the default value for one
pub ghost enum Reading {
    Plain,
    Dollar,
    Name(Seq<char>),
    Default(Seq<char>, Seq<char>),
}

/// A character that ends a line or a column. No reference to a variable goes on behind it.
pub open spec fn breaks_line(c: char) -> bool {
    c == '\n' || c == '\t' || c == '\r'
}

/// A character that can stand in the name of a variable.
pub open spec fn name_char(c: char) -> bool {
    c != ':' && c != '}' && c != ' ' && c != '=' && !breaks_line(c)
}

/// A character that can stand in a default value.
pub open spec fn default_char(c: char) -> bool {
    c != '}' && !breaks_line(c)
}

/// What is left of a reference that has not come to its end.
pub open spec fn unended(at: Reading) -> Seq<char> {
    match at {
        Reading::Name(name) => "${"@ + name,
        Reading::Default(name, default) => "${"@ + name + ":"@ + default,
        _ => Seq::empty(),
    }
}

/// What a reference stands for in an environment: the value of the variable, else the
/// default value, else the reference itself.
pub open spec fn referenced(at: Reading, env: Map<Seq<char>, Seq<char>>) -> Seq<char> {
    match at {
        Reading::Name(name) => if env.contains_key(name) {
            env[name]
        } else {
            "${"@ + name + "}"@
        },
        Reading::Default(name, default) => if env.contains_key(name) {
            env[name]
        } else {
            default
        },
        _ => Seq::empty(),
    }
}

/// What is left of a text with its references to variables expanded. A reference that a
/// line's end, or in the name a space or an equals sign, breaks off stays as it is. At the
/// end of the text a dollar sign is dropped, and so is a reference without a name.
pub open spec fn expanded_from(s: Seq<char>, at: Reading, env: Map<Seq<char>, Seq<char>>) -> Seq<
    char,
>
    decreases s.len(),
{
    if s.len() == 0 {
        match at {
            Reading::Name(name) => if name.len() > 0 {
                unended(at)
            } else {
                Seq::empty()
            },
            Reading::Default(name, _) => if name.len() > 0 {
                unended(at)
            } else {
                Seq::empty()
            },
            _ => Seq::empty(),
        }
    } else {
        let c = s[0];
        let rest = s.skip(1);
        match at {
            Reading::Plain => if c == '$' {
                expanded_from(rest, Reading::Dollar, env)
            } else {
                seq![c] + expanded_from(rest, Reading::Plain, env)
            },
            Reading::Dollar => if c == '{' {
                expanded_from(rest, Reading::Name(Seq::empty()), env)
            } else {
                seq!['$', c] + expanded_from(rest, Reading::Plain, env)
            },
            Reading::Name(name) => if c == ':' {
                expanded_from(rest, Reading::Default(name, Seq::empty()), env)
            } else if c == '}' {
                referenced(at, env) + expanded_from(rest, Reading::Plain, env)
            } else if name_char(c) {
                expanded_from(rest, Reading::Name(name.push(c)), env)
            } else {
                unended(at).push(c) + expanded_from(rest, Reading::Plain, env)
            },
            Reading::Default(name, default) => if c == '}' {
                referenced(at, env) + expanded_from(rest, Reading::Plain, env)
            } else if default_char(c) {
                expanded_from(rest, Reading::Default(name, default.push(c)), env)
            } else {
                unended(at).push(c) + expanded_from(rest, Reading::Plain, env)
            },
        }
    }
}

/// A text in which each `${VAR}` and `${VAR:DEFAULT}` is replaced by what the environment
/// gives.
pub open spec fn expanded(s: Seq<char>, env: Map<Seq<char>, Seq<char>>) -> Seq<char> {
    expanded_from(s, Reading::Plain, env)
}

/// `envmnt::expand` with brackets and defaults: a text in which each `${VAR}` and
/// `${VAR:DEFAULT}` is replaced by what the environment gives. A variable whose value is
/// not Unicode counts as absent. Which variables there are is left open; they do not
/// change while the text is expanded.
#[verifier::external_body]
fn expand(contents: &str) -> (r: String)
    ensures
        exists|env: Map<Seq<char>, Seq<char>>| r@ == #[trigger] expanded(contents@, env),
{
    let mut options = envmnt::ExpandOptions::new();
    options.default_to_empty = false; // If environment variable not found, leave unexpanded.
    options.expansion_type = Some(envmnt::ExpansionType::UnixBracketsWithDefaults); // ${VAR:DEFAULT}
    envmnt::expand(contents, Some(options))
}

/// Text without a dollar sign in front of another text stays as it is.
proof fn lemma_plain_head(head: Seq<char>, tail: Seq<char>, env: Map<Seq<char>, Seq<char>>)
    requires
        !head.contains('$'),
    ensures
        expanded(head + tail, env) == head + expanded(tail, env),
    decreases head.len(),
{
    let s = head + tail;
    if head.len() > 0 {
        let rest = head.skip(1);
        assert(head[0] != '$');
        assert forall|i: int| 0 <= i < rest.len() implies rest[i] != '$' by {
            assert(head[i + 1] != '$');
        }
        lemma_plain_head(rest, tail, env);
        assert(s.skip(1) =~= rest + tail);
        assert(seq![head[0]] + (rest + expanded(tail, env)) =~= head + expanded(tail, env));
    } else {
        assert(s =~= tail);
        assert(head + expanded(tail, env) =~= expanded(tail, env));
    }
}

proof fn lemma_name(
    name: Seq<char>,
    more: Seq<char>,
    tail: Seq<char>,
    env: Map<Seq<char>, Seq<char>>,
)
    requires
        forall|i: int| 0 <= i < more.len() ==> name_char(#[trigger] more[i]),
    ensures
        expanded_from(more + tail, Reading::Name(name), env) == expanded_from(
            tail,
            Reading::Name(name + more),
            env,
        ),
    decreases more.len(),
{
    let s = more + tail;
    if more.len() > 0 {
        let rest = more.skip(1);
        assert(name_char(more[0]));
        assert forall|i: int| 0 <= i < rest.len() implies name_char(#[trigger] rest[i]) by {
            assert(name_char(more[i + 1]));
        }
        lemma_name(name.push(more[0]), rest, tail, env);
        assert(s.skip(1) =~= rest + tail);
        assert(name.push(more[0]) + rest =~= name + more);
    } else {
        assert(s =~= tail);
        assert(name + more =~= name);
    }
}

proof fn lemma_default(
    name: Seq<char>,
    default: Seq<char>,
    more: Seq<char>,
    tail: Seq<char>,
    env: Map<Seq<char>, Seq<char>>,
)
    requires
        forall|i: int| 0 <= i < more.len() ==> default_char(#[trigger] more[i]),
    ensures
        expanded_from(more + tail, Reading::Default(name, default), env) == expanded_from(
            tail,
            Reading::Default(name, default + more),
            env,
        ),
    decreases more.len(),
{
    let s = more + tail;
    if more.len() > 0 {
        let rest = more.skip(1);
        assert(default_char(more[0]));
        assert forall|i: int| 0 <= i < rest.len() implies default_char(#[trigger] rest[i]) by {
            assert(default_char(more[i + 1]));
        }
        lemma_default(name, default.push(more[0]), rest, tail, env);
        assert(s.skip(1) =~= rest + tail);
        assert(default.push(more[0]) + rest =~= default + more);
    } else {
        assert(s =~= tail);
        assert(default + more =~= default);
    }
}

/// A text without a dollar sign is the same in every environment.
pub proof fn plain_texts_stay(s: Seq<char>, env: Map<Seq<char>, Seq<char>>)
    requires
        !s.contains('$'),
    ensures
        expanded(s, env) == s,
{
    lemma_plain_head(s, Seq::empty(), env);
    assert(s + Seq::<char>::empty() =~= s);
}

/// A dollar sign without a bracket behind it stays, with the character behind it.
pub proof fn bare_dollars_stay(
    head: Seq<char>,
    c: char,
    tail: Seq<char>,
    env: Map<Seq<char>, Seq<char>>,
)
    requires
        !head.contains('$'),
        c != '{',
    ensures
        expanded(head + seq!['$', c] + tail, env) == head + seq!['$', c] + expanded(tail, env),
{
    let s = seq!['$', c] + tail;
    lemma_plain_head(head, s, env);
    reveal_with_fuel(expanded_from, 3);
    assert(head + seq!['$', c] + tail =~= head + s);
    assert(s.skip(1)[0] == c);
    assert(s.skip(1).skip(1) =~= tail);
    assert(head + expanded(s, env) =~= head + seq!['$', c] + expanded(tail, env));
}

/// A reference to a variable is replaced by its value, where it has one, and stays as it
/// is, where it has none.
pub proof fn references_are_replaced(
    head: Seq<char>,
    name: Seq<char>,
    tail: Seq<char>,
    env: Map<Seq<char>, Seq<char>>,
)
    requires
        !head.contains('$'),
        forall|i: int| 0 <= i < name.len() ==> name_char(#[trigger] name[i]),
    ensures
        expanded(head + "${"@ + name + "}"@ + tail, env) == head + (if env.contains_key(name) {
            env[name]
        } else {
            "${"@ + name + "}"@
        }) + expanded(tail, env),
{
    reveal_strlit("${");
    reveal_strlit("}");
    let end = "}"@ + tail;
    let s = "${"@ + name + end;
    lemma_plain_head(head, s, env);
    reveal_with_fuel(expanded_from, 3);
    assert(head + "${"@ + name + "}"@ + tail =~= head + s);
    assert(s[0] == '$' && s.skip(1)[0] == '{');
    assert(s.skip(1).skip(1) =~= name + end);
    lemma_name(Seq::empty(), name, end, env);
    assert(Seq::<char>::empty() + name =~= name);
    assert(end[0] == '}');
    assert(end.skip(1) =~= tail);
    let value = referenced(Reading::Name(name), env);
    assert(head + (value + expanded(tail, env)) =~= head + value + expanded(tail, env));
}

/// A reference with a default value is replaced by the value of the variable, where it has
/// one, and by the default value, where it has none.
pub proof fn references_with_defaults_are_replaced(
    head: Seq<char>,
    name: Seq<char>,
    default: Seq<char>,
    tail: Seq<char>,
    env: Map<Seq<char>, Seq<char>>,
)
    requires
        !head.contains('$'),
        forall|i: int| 0 <= i < name.len() ==> name_char(#[trigger] name[i]),
        forall|i: int| 0 <= i < default.len() ==> default_char(#[trigger] default[i]),
    ensures
        expanded(head + "${"@ + name + ":"@ + default + "}"@ + tail, env) == head + (
        if env.contains_key(name) {
            env[name]
        } else {
            default
        }) + expanded(tail, env),
{
    reveal_strlit("${");
    reveal_strlit("}");
    reveal_strlit(":");
    let end = "}"@ + tail;
    let middle = ":"@ + (default + end);
    let s = "${"@ + name + middle;
    lemma_plain_head(head, s, env);
    reveal_with_fuel(expanded_from, 3);
    assert(head + "${"@ + name + ":"@ + default + "}"@ + tail =~= head + s);
    assert(s[0] == '$' && s.skip(1)[0] == '{');
    assert(s.skip(1).skip(1) =~= name + middle);
    lemma_name(Seq::empty(), name, middle, env);
    assert(Seq::<char>::empty() + name =~= name);
    assert(middle[0] == ':');
    assert(middle.skip(1) =~= default + end);
    lemma_default(name, Seq::empty(), default, end, env);
    assert(Seq::<char>::empty() + default =~= default);
    assert(end[0] == '}');
    assert(end.skip(1) =~= tail);
    let value = referenced(Reading::Default(name, default), env);
    assert(head + (value + expanded(tail, env)) =~= head + value + expanded(tail, env));
}

impl HostManifest {
    /// The de-serialization type is chosen based on the file path extension, selecting YAML for .yaml
    /// or .yml files, and JSON for all other file extensions. If the path has no extension, the
    /// de-serialization type chosen will be YAML.
    pub fn format(extension: Option<&str>) -> (r: ManifestFormat)
        ensures
            r == format_for(
                match extension {
                    Some(e) => Some(e@),
                    None => None,
                },
            ),
    {
        match extension {
            Some(e) => {
                let e = to_lowercase(e);
                if same(e.as_str(), "yaml") || same(e.as_str(), "yml") {
                    ManifestFormat::Yaml
                } else {
                    ManifestFormat::Json
                }
            },
            None => ManifestFormat::Yaml,
        }
    }

    /// The text of a manifest with the environment variables in it expanded: each
    /// `${VAR}` and `${VAR:DEFAULT}`.
    pub fn expand_env(contents: &str) -> (r: String)
        ensures
            exists|env: Map<Seq<char>, Seq<char>>| r@ == #[trigger] expanded(contents@, env),
            !contents@.contains('$') ==> r@ == contents@,
    {
        let r = expand(contents);
        proof {
            let env = choose|env: Map<Seq<char>, Seq<char>>| r@ == #[trigger] expanded(
                contents@,
                env,
            );
            if !contents@.contains('$') {
                plain_texts_stay(contents@, env);
            }
        }
        r
    }
}

} // verus!
