//! Loading the global configuration, and managing the registered workspaces.
pub mod types;

use vstd::prelude::*;

use crate::path::{
    check_input, directory_verdict, directory_verdict_of, equal_paths, input_verdict, path_error_text, same_path,
    tilde_expansion_of, PathError, SafePath, SafePathView,
};
use crate::text::{chars_of, concat2, string_from_chars};

pub use types::{
    is_default_global, DriversConfig, ExplainConfig, GlobalConfig, ProjectConfig, ProjectMeta, TuiConfig,
    WorkspaceConfig,
};

verus! {

pub struct Config {
    pub global: GlobalConfig,
}

/// Why the configuration could not be loaded or changed.
#[derive(Debug, Clone)]
pub enum ConfigError {
    /// The configuration file could not be read.
    Read { message: String },
    /// The configuration file is not valid TOML for a configuration.
    Parse { message: String },
    /// A path was refused.
    Path { error: PathError },
    /// The path has no canonical form.
    NoCanonicalForm,
    /// The path is the primary workspace.
    AlreadyPrimary,
    /// The path is registered already.
    AlreadyRegistered,
    /// The path is not among the registered workspaces.
    NotRegistered { path: String },
}

/// How a configuration error reads to the user, `input` being the path it
/// concerns.
pub open spec fn config_error_text(e: ConfigError, input: Seq<char>) -> Seq<char> {
    match e {
        ConfigError::Read { message } => message@,
        ConfigError::Parse { message } => "Failed to parse global config TOML: "@ + message@,
        ConfigError::Path { error } => path_error_text(error, input),
        ConfigError::NoCanonicalForm => "Failed to canonicalize path: "@ + input,
        ConfigError::AlreadyPrimary => "Path is already the primary workspace"@,
        ConfigError::AlreadyRegistered => "Path is already registered"@,
        ConfigError::NotRegistered { path } => "Path not found in registered workspaces: "@ + path@,
    }
}

impl ConfigError {
    /// The message of the error, `input` being the path it concerns.
    pub fn message(&self, input: &str) -> (r: String)
        ensures
            r@ == config_error_text(*self, input@),
    {
        match self {
            ConfigError::Read { message } => message.clone(),
            ConfigError::Parse { message } => concat2("Failed to parse global config TOML: ", message.as_str()),
            ConfigError::Path { error } => error.message(input),
            ConfigError::NoCanonicalForm => concat2("Failed to canonicalize path: ", input),
            ConfigError::AlreadyPrimary => String::from_str("Path is already the primary workspace"),
            ConfigError::AlreadyRegistered => String::from_str("Path is already registered"),
            ConfigError::NotRegistered { path } => concat2(
                "Path not found in registered workspaces: ",
                path.as_str(),
            ),
        }
    }
}

/// `s` without its trailing `c` characters (`str::trim_end_matches` for one character).
pub open spec fn trim_end_char(s: Seq<char>, c: char) -> Seq<char>
    decreases s.len(),
{
    if s.len() > 0 && s.last() == c {
        trim_end_char(s.drop_last(), c)
    } else {
        s
    }
}

/// Whether a new workspace whose canonical form is `canonical` duplicates the
/// primary workspace or a registered one, given their canonical forms where
/// they have one.
pub open spec fn duplicate_verdict(
    canonical: Seq<char>,
    primary: Option<Seq<char>>,
    registered: Seq<Option<Seq<char>>>,
) -> Result<(), ConfigError> {
    if primary matches Some(p) && same_path(canonical, p) {
        Err(ConfigError::AlreadyPrimary)
    } else if exists|i: int|
        0 <= i < registered.len() && (#[trigger] registered[i] matches Some(q) && same_path(
            canonical,
            q,
        )) {
        Err(ConfigError::AlreadyRegistered)
    } else {
        Ok(())
    }
}

pub open spec fn strs(v: Seq<String>) -> Seq<Seq<char>> {
    v.map_values(|s: String| s@)
}

/// The configuration is the same but for its registered workspaces.
pub open spec fn same_but_registered(a: GlobalConfig, b: GlobalConfig) -> bool {
    &&& a.workspace.path == b.workspace.path
    &&& a.workspace.auto_scan == b.workspace.auto_scan
    &&& a.drivers == b.drivers
    &&& a.tui == b.tui
    &&& a.explain == b.explain
}

pub(crate) fn trim_trailing_slashes(s: &str) -> (r: String)
    ensures
        r@ == trim_end_char(s@, '/'),
{
    let chars = chars_of(s);
    let mut n = chars.len();
    assert(chars@.subrange(0, n as int) =~= chars@);
    while n > 0 && chars[n - 1] == '/'
        invariant
            n <= chars@.len(),
            trim_end_char(s@, '/') == trim_end_char(chars@.subrange(0, n as int), '/'),
        decreases n,
    {
        assert(chars@.subrange(0, n as int).drop_last() =~= chars@.subrange(0, n - 1));
        n = n - 1;
    }
    let mut out: Vec<char> = Vec::new();
    let mut i: usize = 0;
    while i < n
        invariant
            n <= chars@.len(),
            i <= n,
            out@ == chars@.subrange(0, i as int),
        decreases n - i,
    {
        out.push(chars[i]);
        i = i + 1;
        assert(out@ =~= chars@.subrange(0, i as int));
    }
    string_from_chars(&out)
}

/// The verdict on a new workspace from the canonical forms (see `duplicate_verdict`).
pub fn duplicate_check(canonical: &str, primary: Option<&str>, registered: &Vec<Option<String>>) -> (r:
    Result<(), ConfigError>)
    ensures
        r == duplicate_verdict(
            canonical@,
            match primary {
                Some(p) => Some(p@),
                None => None,
            },
            registered@.map_values(|o: Option<String>| match o {
                Some(q) => Some(q@),
                None => None,
            }),
        ),
{
    let ghost regs = registered@.map_values(|o: Option<String>| match o {
        Some(q) => Some(q@),
        None => None,
    });
    if let Some(p) = primary {
        if crate::path::paths_equal(canonical, p) {
            return Err(ConfigError::AlreadyPrimary);
        }
    }
    let mut i: usize = 0;
    while i < registered.len()
        invariant
            i <= registered@.len(),
            regs == registered@.map_values(|o: Option<String>| match o {
                Some(q) => Some(q@),
                None => None,
            }),
            forall|j: int|
                0 <= j < i ==> !(#[trigger] regs[j] matches Some(q) && same_path(canonical@, q)),
            !(primary matches Some(p) && same_path(canonical@, p@)),
        decreases registered.len() - i,
    {
        match &registered[i] {
            Some(q) => {
                if crate::path::paths_equal(canonical, q.as_str()) {
                    assert(regs[i as int] == Some(q@));
                    assert(regs[i as int] matches Some(qq) && same_path(canonical@, qq));
                    return Err(ConfigError::AlreadyRegistered);
                }
                assert(regs[i as int] == Some(q@));
            },
            None => {
                assert(regs[i as int] is None);
            },
        }
        i = i + 1;
    }
    Ok(())
}

/// What parsing a typed path may give, as `SafePath::from_user_input` states it.
pub open spec fn parsed_as(input: Seq<char>, r: Result<SafePathView, PathError>) -> bool {
    match r {
        Err(e) => input_verdict(input) == Err::<(), PathError>(e),
        Ok(p) => input_verdict(input) is Ok && p.original == input && tilde_expansion_of(
            input,
            p.expanded,
        ),
    }
}

pub open spec fn parsed_view(v: Seq<Result<SafePath, PathError>>) -> Seq<Result<SafePathView, PathError>> {
    v.map_values(
        |r: Result<SafePath, PathError>|
            match r {
                Ok(p) => Ok(p@),
                Err(e) => Err(e),
            },
    )
}

pub open spec fn opt_strs(v: Seq<Option<String>>) -> Seq<Option<Seq<char>>> {
    v.map_values(
        |o: Option<String>|
            match o {
                Some(q) => Some(q@),
                None => None,
            },
    )
}

/// The registered paths that stay when `target` is removed, in order: those
/// that could not be parsed, and those not equal to it.
pub open spec fn kept_of(
    target: SafePathView,
    regs: Seq<Seq<char>>,
    parsed: Seq<Result<SafePathView, PathError>>,
) -> Seq<Seq<char>>
    decreases regs.len(),
{
    if regs.len() == 0 {
        seq![]
    } else {
        let rest = kept_of(target, regs.drop_last(), parsed.drop_last());
        if parsed[regs.len() - 1] matches Ok(p) && equal_paths(target, p) {
            rest
        } else {
            rest.push(regs.last())
        }
    }
}

/// The target and the registered paths parsed as `SafePath::from_user_input`
/// parses them.
pub open spec fn removal_by(
    path: Seq<char>,
    target: SafePathView,
    regs: Seq<Seq<char>>,
    parsed: Seq<Result<SafePathView, PathError>>,
) -> bool {
    &&& parsed_as(path, Ok(target))
    &&& parsed.len() == regs.len()
    &&& forall|i: int| 0 <= i < regs.len() ==> parsed_as(regs[i], #[trigger] parsed[i])
}

/// The registered paths that stay when `safe` is removed: in order, those
/// whose parse failed and those not equal to it.
pub fn kept_registered(
    safe: &SafePath,
    regs: &Vec<String>,
    parsed: &Vec<Result<SafePath, PathError>>,
) -> (r: Vec<String>)
    requires
        regs@.len() == parsed@.len(),
    ensures
        strs(r@) == kept_of(safe@, strs(regs@), parsed_view(parsed@)),
{
    let mut kept: Vec<String> = Vec::new();
    let mut i: usize = 0;
    while i < regs.len()
        invariant
            i <= regs@.len(),
            regs@.len() == parsed@.len(),
            strs(kept@) == kept_of(
                safe@,
                strs(regs@).subrange(0, i as int),
                parsed_view(parsed@).subrange(0, i as int),
            ),
        decreases regs.len() - i,
    {
        let keep = match &parsed[i] {
            Ok(p) => !safe.equals(p),
            Err(_) => true,
        };
        let ghost before = strs(kept@);
        if keep {
            kept.push(regs[i].clone());
            assert(strs(kept@) =~= before.push(regs@[i as int]@));
        }
        assert(strs(regs@).subrange(0, i + 1).drop_last() =~= strs(regs@).subrange(0, i as int));
        assert(parsed_view(parsed@).subrange(0, i + 1).drop_last() =~= parsed_view(parsed@).subrange(
            0,
            i as int,
        ));
        i = i + 1;
    }
    assert(strs(regs@).subrange(0, regs@.len() as int) =~= strs(regs@));
    assert(parsed_view(parsed@).subrange(0, parsed@.len() as int) =~= parsed_view(parsed@));
    kept
}

/// How the parse of the primary workspace and the canonical forms of the
/// registered ones may stand: a refused primary path gives its error, an
/// accepted one some canonical form or none; a registered path that is
/// refused has no canonical form.
pub open spec fn probes_fit(
    primary_text: Seq<char>,
    regs_text: Seq<Seq<char>>,
    primary: Result<Option<Seq<char>>, PathError>,
    registered: Seq<Option<Seq<char>>>,
) -> bool {
    &&& (primary matches Err(e) ==> input_verdict(primary_text) == Err::<(), PathError>(e))
    &&& (primary is Ok ==> input_verdict(primary_text) is Ok)
    &&& registered.len() == regs_text.len()
    &&& forall|i: int|
        0 <= i < regs_text.len() ==> (input_verdict(regs_text[i]) is Err ==> (
        #[trigger] registered[i]) is None)
}

/// The verdict on adding a workspace, from what the disk told: the typed path
/// must pass the input checks and be an existing directory with a canonical
/// form; the primary workspace's path must pass the input checks; then the
/// canonical form may be neither the primary one nor a registered one.
pub open spec fn add_verdict_of(
    input: Seq<char>,
    exists: bool,
    is_dir: bool,
    canonical: Option<Seq<char>>,
    primary: Result<Option<Seq<char>>, PathError>,
    registered: Seq<Option<Seq<char>>>,
) -> Result<(), ConfigError> {
    match input_verdict(input) {
        Err(e) => Err(ConfigError::Path { error: e }),
        Ok(_) => match directory_verdict_of(exists, is_dir) {
            Err(e) => Err(ConfigError::Path { error: e }),
            Ok(_) => match canonical {
                None => Err(ConfigError::NoCanonicalForm),
                Some(c) => match primary {
                    Err(e) => Err(ConfigError::Path { error: e }),
                    Ok(p) => duplicate_verdict(c, p, registered),
                },
            },
        },
    }
}

pub fn add_verdict(
    input: &str,
    exists: bool,
    is_dir: bool,
    canonical: Option<&str>,
    primary: Result<Option<&str>, PathError>,
    registered: &Vec<Option<String>>,
) -> (r: Result<(), ConfigError>)
    ensures
        r == add_verdict_of(
            input@,
            exists,
            is_dir,
            match canonical {
                Some(c) => Some(c@),
                None => None,
            },
            match primary {
                Ok(Some(p)) => Ok(Some(p@)),
                Ok(None) => Ok(None),
                Err(e) => Err(e),
            },
            opt_strs(registered@),
        ),
{
    if let Err(e) = check_input(input) {
        return Err(ConfigError::Path { error: e });
    }
    if let Err(e) = directory_verdict(exists, is_dir) {
        return Err(ConfigError::Path { error: e });
    }
    let c = match canonical {
        Some(c) => c,
        None => {
            return Err(ConfigError::NoCanonicalForm);
        },
    };
    match primary {
        Err(e) => Err(ConfigError::Path { error: e }),
        Ok(p) => duplicate_check(c, p, registered),
    }
}

impl Default for Config {
    /// The configuration with the default global part.
    fn default() -> (r: Self)
        ensures
            is_default_global(r.global),
    {
        Config { global: GlobalConfig::default() }
    }
}

impl Config {
    /// The configuration from the global configuration file that was found
    /// first, as read and parsed (`None`: no file found; the default then).
    pub fn load(found: Option<Result<GlobalConfig, ConfigError>>) -> (r: Result<Self, ConfigError>)
        ensures
            found is None ==> (r matches Ok(c) && is_default_global(c.global)),
            found matches Some(Ok(g)) ==> (r matches Ok(c) && c.global == g),
            found matches Some(Err(e)) ==> (r matches Err(e2) && e2 == e),
    {
        match found {
            None => Ok(Config::default()),
            Some(Ok(global)) => Ok(Config { global }),
            Some(Err(e)) => Err(e),
        }
    }

    /// Add a workspace path to the registered list: it must be an existing
    /// directory with a canonical form that is neither the primary workspace
    /// nor a registered one. It is stored as typed, without trailing slashes.
    /// What the disk told (whether the path is a directory, the canonical
    /// forms) is not stated; the outcome is `add_verdict_of` on it.
    /// (Saving the changed configuration is left to the caller.)
    pub fn add_workspace_path(&mut self, path: &str) -> (r: Result<(), ConfigError>)
        ensures
            input_verdict(path@) matches Err(e) ==> (r matches Err(e2) && e2 == (ConfigError::Path {
                error: e,
            })),
            input_verdict(old(self).global.workspace.path@) is Err ==> r is Err,
            exists|
                exists: bool,
                is_dir: bool,
                canonical: Option<Seq<char>>,
                primary: Result<Option<Seq<char>>, PathError>,
                registered: Seq<Option<Seq<char>>>,
            |
                probes_fit(
                    old(self).global.workspace.path@,
                    strs(old(self).global.workspace.registered@),
                    primary,
                    registered,
                ) && #[trigger] add_verdict_of(path@, exists, is_dir, canonical, primary, registered)
                    == r,
            r is Ok ==> strs(final(self).global.workspace.registered@) == strs(
                old(self).global.workspace.registered@,
            ).push(trim_end_char(path@, '/')),
            r is Ok ==> same_but_registered(final(self).global, old(self).global),
            r is Err ==> *final(self) == *old(self),
    {
        let ghost primary_text = self.global.workspace.path@;
        let ghost regs_text = strs(self.global.workspace.registered@);
        let ghost mut p: Result<Option<Seq<char>>, PathError> = match input_verdict(primary_text) {
            Err(pe) => Err(pe),
            Ok(_) => Ok(None),
        };
        let ghost mut rv: Seq<Option<Seq<char>>> = Seq::new(regs_text.len(), |i: int| None);
        assert(probes_fit(primary_text, regs_text, p, rv));
        let safe = match SafePath::from_user_input(path) {
            Ok(s) => s,
            Err(e) => {
                assert(add_verdict_of(path@, true, true, None, p, rv) == Err::<(), ConfigError>(
                    ConfigError::Path { error: e },
                ));
                return Err(ConfigError::Path { error: e });
            },
        };
        let dir = safe.validate_directory();
        match dir {
            Ok(()) => {},
            Err(e) => {
                let ghost d_exists = e != PathError::NotFound;
                assert(directory_verdict_of(d_exists, false) == Err::<(), PathError>(e));
                assert(add_verdict_of(path@, d_exists, false, None, p, rv) == Err::<(), ConfigError>(
                    ConfigError::Path { error: e },
                ));
                return Err(ConfigError::Path { error: e });
            },
        }
        let canonical = match safe.canonical() {
            Some(c) => c,
            None => {
                assert(add_verdict_of(path@, true, true, None, p, rv) == Err::<(), ConfigError>(
                    ConfigError::NoCanonicalForm,
                ));
                return Err(ConfigError::NoCanonicalForm);
            },
        };
        let primary_safe = match SafePath::from_user_input(self.global.workspace.path.as_str()) {
            Ok(s) => s,
            Err(e) => {
                assert(add_verdict_of(path@, true, true, Some(canonical@), p, rv) == Err::<
                    (),
                    ConfigError,
                >(ConfigError::Path { error: e }));
                return Err(ConfigError::Path { error: e });
            },
        };
        let primary_canonical = primary_safe.canonical();
        proof {
            p = Ok(
                match primary_canonical {
                    Some(c) => Some(c@),
                    None => None,
                },
            );
        }
        let mut regs: Vec<Option<String>> = Vec::new();
        let mut i: usize = 0;
        while i < self.global.workspace.registered.len()
            invariant
                i <= self.global.workspace.registered@.len(),
                regs_text == strs(self.global.workspace.registered@),
                regs@.len() == i,
                forall|k: int|
                    0 <= k < i ==> (input_verdict(regs_text[k]) is Err ==> (#[trigger] regs@[k]) is None),
            decreases self.global.workspace.registered.len() - i,
        {
            let c = match SafePath::from_user_input(self.global.workspace.registered[i].as_str()) {
                Ok(s) => match s.canonical() {
                    Some(c) => Some(c.to_string()),
                    None => None,
                },
                Err(_) => None,
            };
            assert(regs_text[i as int] == self.global.workspace.registered@[i as int]@);
            regs.push(c);
            i = i + 1;
        }
        proof {
            rv = opt_strs(regs@);
        }
        assert(probes_fit(primary_text, regs_text, p, rv));
        let verdict = duplicate_check(canonical, primary_canonical, &regs);
        assert(add_verdict_of(path@, true, true, Some(canonical@), p, rv) == verdict);
        match verdict {
            Ok(()) => {},
            Err(e) => {
                return Err(e);
            },
        }
        let normalized = trim_trailing_slashes(path);
        self.global.workspace.registered.push(normalized);
        assert(strs(self.global.workspace.registered@) =~= strs(
            old(self).global.workspace.registered@,
        ).push(trim_end_char(path@, '/')));
        Ok(())
    }

    /// Remove a workspace path from the registered list: every registered path
    /// equal to it (as `SafePath::equals` compares) goes, the others stay in
    /// order, and so do those that are not valid paths; an error where none
    /// was equal. The canonical forms the comparison reads come from the disk
    /// and are not stated; the outcome is `kept_of` on them.
    /// (Saving the changed configuration is left to the caller.)
    pub fn remove_workspace_path(&mut self, path: &str) -> (r: Result<(), ConfigError>)
        ensures
            input_verdict(path@) matches Err(e) ==> (r matches Err(e2) && e2 == (ConfigError::Path {
                error: e,
            })),
            input_verdict(path@) is Ok ==> exists|
                target: SafePathView,
                parsed: Seq<Result<SafePathView, PathError>>,
            |
                #[trigger] removal_by(
                    path@,
                    target,
                    strs(old(self).global.workspace.registered@),
                    parsed,
                ) && if kept_of(target, strs(old(self).global.workspace.registered@), parsed).len()
                    == old(self).global.workspace.registered@.len() {
                    r matches Err(ConfigError::NotRegistered { path: q }) && q@ == path@
                } else {
                    r is Ok && strs(final(self).global.workspace.registered@) == kept_of(
                        target,
                        strs(old(self).global.workspace.registered@),
                        parsed,
                    )
                },
            r is Ok ==> same_but_registered(final(self).global, old(self).global),
            r is Err ==> *final(self) == *old(self),
            r matches Err(ConfigError::NotRegistered { path: p }) ==> p@ == path@,
    {
        let safe = match SafePath::from_user_input(path) {
            Ok(s) => s,
            Err(e) => {
                return Err(ConfigError::Path { error: e });
            },
        };
        let ghost regs_text = strs(self.global.workspace.registered@);
        let mut parsed: Vec<Result<SafePath, PathError>> = Vec::new();
        let mut i: usize = 0;
        while i < self.global.workspace.registered.len()
            invariant
                i <= self.global.workspace.registered@.len(),
                regs_text == strs(self.global.workspace.registered@),
                parsed@.len() == i,
                forall|k: int|
                    0 <= k < i ==> parsed_as(regs_text[k], #[trigger] parsed_view(parsed@)[k]),
            decreases self.global.workspace.registered.len() - i,
        {
            let q = SafePath::from_user_input(self.global.workspace.registered[i].as_str());
            assert(regs_text[i as int] == self.global.workspace.registered@[i as int]@);
            let ghost before = parsed_view(parsed@);
            parsed.push(q);
            assert(parsed_view(parsed@) =~= before.push(
                match q {
                    Ok(p) => Ok(p@),
                    Err(e) => Err(e),
                },
            ));
            i = i + 1;
        }
        let kept = kept_registered(&safe, &self.global.workspace.registered, &parsed);
        assert(removal_by(path@, safe@, regs_text, parsed_view(parsed@)));
        if kept.len() == self.global.workspace.registered.len() {
            return Err(ConfigError::NotRegistered { path: path.to_string() });
        }
        self.global.workspace.registered = kept;
        Ok(())
    }
}

} // verus!
