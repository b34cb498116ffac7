//! CLI argument handling: the raw argument triple and the
//! `name~version` dependency token parser.
use vstd::prelude::*;
use vstd::string::*;
use crate::errors::InstallError;

verus! {

/// A validated dependency descriptor: both parts non-empty and free of
/// path separators.
#[derive(Debug)]
pub struct DependencySpec {
    pub name: String,
    pub version: String,
}

pub open spec fn is_path_separator(c: char) -> bool {
    c == '/' || c == '\\'
}

/// A usable name or version: non-empty and free of path separators.
pub open spec fn valid_component(s: Seq<char>) -> bool {
    s.len() > 0 && (forall|i: int| 0 <= i < s.len() ==> !is_path_separator(s[i]))
}

/// How many `~` separators the token holds.
pub open spec fn tilde_count(s: Seq<char>) -> nat
    decreases s.len(),
{
    if s.len() == 0 {
        0
    } else {
        tilde_count(s.drop_last()) + (if s.last() == '~' {
            1nat
        } else {
            0nat
        })
    }
}

/// The position of the first `~` of the token (the token's length if it
/// has none).
pub open spec fn tilde_index(s: Seq<char>) -> int
    decreases s.len(),
{
    if s.len() == 0 {
        0
    } else if s[0] == '~' {
        0
    } else {
        1 + tilde_index(s.drop_first())
    }
}

/// What stands before the single `~`.
pub open spec fn name_part(s: Seq<char>) -> Seq<char> {
    s.subrange(0, tilde_index(s))
}

/// What stands after the single `~`.
pub open spec fn version_part(s: Seq<char>) -> Seq<char> {
    s.subrange(tilde_index(s) + 1, s.len() as int)
}

/// A well-formed dependency token: exactly one `~`, and a valid name and
/// version on its two sides.
pub open spec fn valid_dependency_token(s: Seq<char>) -> bool {
    &&& tilde_count(s) == 1
    &&& valid_component(name_part(s))
    &&& valid_component(version_part(s))
}

proof fn lemma_tilde_index_is_first(s: Seq<char>, k: int)
    requires
        0 <= k < s.len(),
        s[k] == '~',
        forall|j: int| 0 <= j < k ==> s[j] != '~',
    ensures
        tilde_index(s) == k,
    decreases k,
{
    if k == 0 {
    } else {
        assert(s[0] != '~');
        assert(s.drop_first()[k - 1] == s[k]);
        assert forall|j: int| 0 <= j < k - 1 implies s.drop_first()[j] != '~' by {
            assert(s.drop_first()[j] == s[j + 1]);
        }
        lemma_tilde_index_is_first(s.drop_first(), k - 1);
    }
}

/// True exactly when `s` is a usable name or version.
fn component_ok(s: &str) -> (b: bool)
    ensures
        b == valid_component(s@),
{
    let len = s.unicode_len();
    if len == 0 {
        return false;
    }
    let mut i: usize = 0;
    while i < len
        invariant
            i <= len,
            len == s@.len(),
            forall|j: int| 0 <= j < i ==> !is_path_separator(s@[j]),
        decreases len - i,
    {
        let c = s.get_char(i);
        if c == '/' || c == '\\' {
            return false;
        }
        i += 1;
    }
    true
}

/// Splits a `name~version` token on its single `~`.  Tokens with zero or
/// several `~`, an empty side, or a path separator in either side are
/// rejected as `MalformedSpec`.
pub fn parse_dependency_spec(token: &str) -> (r: Result<DependencySpec, InstallError>)
    ensures
        match r {
            Ok(d) => valid_dependency_token(token@) && d.name@ == name_part(token@) && d.version@
                == version_part(token@),
            Err(e) => !valid_dependency_token(token@) && e is MalformedSpec,
        },
{
    let len = token.unicode_len();
    let mut i: usize = 0;
    let mut count: usize = 0;
    let mut first: usize = 0;
    while i < len
        invariant
            i <= len,
            len == token@.len(),
            count as nat == tilde_count(token@.subrange(0, i as int)),
            count <= i,
            count == 0 ==> forall|j: int| 0 <= j < i ==> token@[j] != '~',
            count > 0 ==> first < i && token@[first as int] == '~' && (forall|j: int|
                0 <= j < first ==> token@[j] != '~'),
        decreases len - i,
    {
        let c = token.get_char(i);
        proof {
            assert(token@.subrange(0, i + 1).drop_last() =~= token@.subrange(0, i as int));
            assert(token@.subrange(0, i + 1).last() == token@[i as int]);
        }
        if c == '~' {
            if count == 0 {
                first = i;
            }
            count += 1;
        }
        i += 1;
    }
    proof {
        assert(token@.subrange(0, len as int) =~= token@);
    }
    if count != 1 {
        return Err(InstallError::MalformedSpec);
    }
    proof {
        lemma_tilde_index_is_first(token@, first as int);
    }
    let name_str = token.substring_char(0, first);
    let version_str = token.substring_char(first + 1, len);
    if !component_ok(name_str) {
        return Err(InstallError::MalformedSpec);
    }
    if !component_ok(version_str) {
        return Err(InstallError::MalformedSpec);
    }
    Ok(DependencySpec { name: name_str.to_owned(), version: version_str.to_owned() })
}

/// The raw CLI triple `(command, dependency token, explicit URL)`; absent
/// trailing arguments become empty strings, and a call without a command
/// word is refused.
pub fn process_args(args: Vec<String>) -> (r: Result<(String, String, String), ()>)
    ensures
        match r {
            Ok(t) => args@.len() >= 2 && t.0@ == args@[1]@ && t.1@ == (if args@.len() > 2 {
                args@[2]@
            } else {
                Seq::<char>::empty()
            }) && t.2@ == (if args@.len() > 3 {
                args@[3]@
            } else {
                Seq::<char>::empty()
            }),
            Err(_) => args@.len() < 2,
        },
{
    if args.len() < 2 {
        return Err(());
    }
    let command: String = args[1].clone();
    let dependency: String = if args.len() > 2 {
        args[2].clone()
    } else {
        String::new()
    };
    let url: String = if args.len() > 3 {
        args[3].clone()
    } else {
        String::new()
    };
    Ok((command, dependency, url))
}

/// What a run is asked to do, read off the raw argument triple.
pub enum Command {
    /// Install one dependency; an empty `explicit_url` means the URL is
    /// resolved through the registry.
    Install { token: String, explicit_url: String },
    /// Reinstall every dependency the manifest declares.
    Update,
    /// Print the usage text and do nothing else.
    Help,
    /// An unrecognized command word.
    Unknown,
}

/// Picks the run mode: `install` with a token installs that dependency;
/// `update`, or `install` without a token, replays the whole manifest;
/// `help` only prints usage.
pub fn select_command(command: &String, dependency_arg: &String, url_arg: &String) -> (c: Command)
    ensures
        command@ == "install"@ && dependency_arg@.len() > 0 ==> (c matches Command::Install {
            token,
            explicit_url,
        } && token@ == dependency_arg@ && explicit_url@ == url_arg@),
        command@ == "update"@ || (command@ == "install"@ && dependency_arg@.len() == 0)
            ==> c is Update,
        command@ == "help"@ ==> c is Help,
        command@ != "install"@ && command@ != "update"@ && command@ != "help"@ ==> c is Unknown,
{
    proof {
        reveal_strlit("install");
        reveal_strlit("update");
        reveal_strlit("help");
        assert("install"@ != "update"@ && "install"@ != "help"@ && "update"@ != "help"@) by {
            assert("install"@.len() == 7);
            assert("update"@.len() == 6);
            assert("help"@.len() == 4);
        }
    }
    let install_word: String = "install".to_owned();
    let update_word: String = "update".to_owned();
    let help_word: String = "help".to_owned();
    if *command == install_word {
        if dependency_arg.as_str().unicode_len() > 0 {
            Command::Install { token: dependency_arg.clone(), explicit_url: url_arg.clone() }
        } else {
            Command::Update
        }
    } else if *command == update_word {
        Command::Update
    } else if *command == help_word {
        Command::Help
    } else {
        Command::Unknown
    }
}

} // verus!
