//! Directory resolution.
//!
//! One knob controls where models live, the RunAnywhere home: the `--home` flag,
//! then `$RUNANYWHERE_HOME`, then the engine's default for the platform.
//! History stays under `${XDG_STATE_HOME:-~/.local/state}/runanywhere`.

use crate::text;
use vstd::prelude::*;

verus! {

/// A path with every backslash turned into a slash.
pub open spec fn slashes(s: Seq<char>) -> Seq<char> {
    Seq::new(
        s.len(),
        |i: int|
            if s[i] == '\\' {
                '/'
            } else {
                s[i]
            },
    )
}

/// A path without the separators it ends with; the root keeps its one.
pub open spec fn without_trailing(s: Seq<char>) -> Seq<char>
    decreases s.len(),
{
    if s.len() > 1 && (s.last() == '/' || s.last() == '\\') {
        without_trailing(s.drop_last())
    } else {
        s
    }
}

/// A directory in the one form in which it is kept and printed; on Windows with
/// slashes only.
pub open spec fn normalized(dir: Seq<char>, windows: bool) -> Seq<char> {
    without_trailing(
        if windows {
            slashes(dir)
        } else {
            dir
        },
    )
}

fn slashes_exec(s: &str) -> (r: String)
    ensures
        r@ == slashes(s@),
{
    let v = text::chars_of(s);
    let mut r = String::new();
    let mut i: usize = 0;
    while i < v.len()
        invariant
            i <= v@.len(),
            v@ == s@,
            r@ == slashes(s@).take(i as int),
        decreases v@.len() - i,
    {
        r.push(if v[i] == '\\' { '/' } else { v[i] });
        i = i + 1;
        assert(r@ =~= slashes(s@).take(i as int));
    }
    assert(r@ =~= slashes(s@));
    r
}

/// See [`normalized`].
pub fn normalize_dir(dir: &str, windows: bool) -> (r: String)
    ensures
        r@ == normalized(dir@, windows),
{
    let folded = if windows { slashes_exec(dir) } else { text::owned(dir) };
    let v = text::chars_of(folded.as_str());
    let mut n: usize = v.len();
    assert(v@.take(n as int) =~= v@);
    while n > 1 && (v[n - 1] == '/' || v[n - 1] == '\\')
        invariant
            n <= v@.len(),
            without_trailing(v@) == without_trailing(v@.take(n as int)),
        decreases n,
    {
        assert(v@.take(n as int).last() == v@[n - 1]);
        assert(v@.take(n as int).drop_last() =~= v@.take(n - 1));
        n = n - 1;
    }
    proof {
        if n > 1 {
            assert(v@.take(n as int).last() == v@[n - 1]);
        }
    }
    let r = text::string_of_range(&v, 0, n);
    assert(r@ =~= v@.take(n as int));
    r
}

/// A directory that was given, or none.
pub open spec fn given(dir: Option<String>) -> Option<Seq<char>> {
    match dir {
        Some(d) => Some(d@),
        None => None,
    }
}

/// The RunAnywhere home: the flag, else the environment, else the engine's
/// default, else nothing.
pub open spec fn home_of(
    override_dir: Seq<char>,
    env: Option<Seq<char>>,
    engine_default: Option<Seq<char>>,
    windows: bool,
) -> Seq<char> {
    if override_dir.len() > 0 {
        normalized(override_dir, windows)
    } else if env is Some {
        normalized(env->0, windows)
    } else if engine_default is Some {
        normalized(engine_default->0, windows)
    } else {
        Seq::empty()
    }
}

/// Resolves the RunAnywhere home; see [`home_of`]. `env` is `RUNANYWHERE_HOME`.
pub fn resolve_home(
    override_dir: &str,
    env: &Option<String>,
    engine_default: &Option<String>,
    windows: bool,
) -> (r: String)
    ensures
        r@ == home_of(override_dir@, given(*env), given(*engine_default), windows),
{
    if !override_dir.is_empty() {
        return normalize_dir(override_dir, windows);
    }
    if let Some(dir) = env {
        return normalize_dir(dir.as_str(), windows);
    }
    if let Some(dir) = engine_default {
        return normalize_dir(dir.as_str(), windows);
    }
    String::new()
}

/// The environment that names the state directory.
#[derive(Clone, Debug, Default)]
pub struct StateEnv {
    pub xdg_state_home: Option<String>,
    pub local_app_data: Option<String>,
    pub user_profile: Option<String>,
    pub home: Option<String>,
}

/// The state directory. On Windows the local application data comes before
/// HOME, which some shells set there too.
pub open spec fn state_of(env: StateEnv, windows: bool) -> Seq<char> {
    if env.xdg_state_home is Some {
        normalized(env.xdg_state_home->0@, windows) + "/runanywhere"@
    } else if windows && env.local_app_data is Some {
        normalized(env.local_app_data->0@, windows) + "/RunAnywhere/state"@
    } else if windows && env.user_profile is Some {
        normalized(env.user_profile->0@, windows) + "/AppData/Local/RunAnywhere/state"@
    } else if env.home is Some {
        normalized(env.home->0@, windows) + "/.local/state/runanywhere"@
    } else {
        Seq::empty()
    }
}

/// See [`state_of`].
pub fn state_dir(env: &StateEnv, windows: bool) -> (r: String)
    ensures
        r@ == state_of(*env, windows),
{
    if let Some(dir) = &env.xdg_state_home {
        return text::cat2(normalize_dir(dir.as_str(), windows).as_str(), "/runanywhere");
    }
    if windows {
        if let Some(dir) = &env.local_app_data {
            return text::cat2(normalize_dir(dir.as_str(), windows).as_str(), "/RunAnywhere/state");
        }
        if let Some(dir) = &env.user_profile {
            return text::cat2(
                normalize_dir(dir.as_str(), windows).as_str(),
                "/AppData/Local/RunAnywhere/state",
            );
        }
    }
    if let Some(dir) = &env.home {
        return text::cat2(normalize_dir(dir.as_str(), windows).as_str(), "/.local/state/runanywhere");
    }
    String::new()
}

/// A normalized directory stays as it is when it is normalized again.
pub proof fn normalizing_twice_changes_nothing(dir: Seq<char>, windows: bool)
    ensures
        normalized(normalized(dir, windows), windows) == normalized(dir, windows),
{
    let folded = if windows {
        slashes(dir)
    } else {
        dir
    };
    trailing_is_gone(folded);
    if windows {
        prefix_keeps_slashes(folded);
        let r = without_trailing(folded);
        assert(slashes(r) =~= r);
    }
}

proof fn trailing_is_gone(s: Seq<char>)
    ensures
        without_trailing(without_trailing(s)) == without_trailing(s),
    decreases s.len(),
{
    if s.len() > 1 && (s.last() == '/' || s.last() == '\\') {
        trailing_is_gone(s.drop_last());
    }
}

proof fn prefix_keeps_slashes(s: Seq<char>)
    requires
        forall|i: int| 0 <= i < s.len() ==> s[i] != '\\',
    ensures
        forall|i: int| 0 <= i < without_trailing(s).len() ==> without_trailing(s)[i] != '\\',
    decreases s.len(),
{
    if s.len() > 1 && (s.last() == '/' || s.last() == '\\') {
        prefix_keeps_slashes(s.drop_last());
        assert(without_trailing(s) == without_trailing(s.drop_last()));
    } else {
        assert(without_trailing(s) == s);
    }
}

/// A directory loses the separators at its end, but for one that is all there is,
/// and nothing else; on Windows every separator becomes a slash.
pub proof fn normalizing_takes_only_the_end(dir: Seq<char>, windows: bool)
    ensures
        ({
            let r = normalized(dir, windows);
            &&& r.len() <= dir.len()
            &&& forall|i: int|
                0 <= i < r.len() ==> #[trigger] r[i] == if windows && dir[i] == '\\' {
                    '/'
                } else {
                    dir[i]
                }
            &&& forall|i: int| r.len() <= i < dir.len() ==> #[trigger] dir[i] == '/' || dir[i] == '\\'
            &&& r.len() > 1 ==> r.last() != '/' && r.last() != '\\'
            &&& dir.len() > 0 ==> r.len() > 0
        }),
{
    let s = if windows {
        slashes(dir)
    } else {
        dir
    };
    trimming_takes_only_separators(s);
    let r = normalized(dir, windows);
    assert forall|i: int| r.len() <= i < dir.len() implies #[trigger] dir[i] == '/' || dir[i] == '\\' by {
        assert(s[i] == '/' || s[i] == '\\');
    }
    assert forall|i: int| 0 <= i < r.len() implies #[trigger] r[i] == if windows && dir[i] == '\\' {
        '/'
    } else {
        dir[i]
    } by {
        assert(r[i] == s[i]);
    }
}

proof fn trimming_takes_only_separators(s: Seq<char>)
    ensures
        ({
            let r = without_trailing(s);
            &&& r.len() <= s.len()
            &&& r == s.take(r.len() as int)
            &&& forall|i: int| r.len() <= i < s.len() ==> #[trigger] s[i] == '/' || s[i] == '\\'
            &&& r.len() > 1 ==> r.last() != '/' && r.last() != '\\'
            &&& s.len() > 0 ==> r.len() > 0
        }),
    decreases s.len(),
{
    let r = without_trailing(s);
    if s.len() > 1 && (s.last() == '/' || s.last() == '\\') {
        let rest = s.drop_last();
        trimming_takes_only_separators(rest);
        assert forall|i: int| r.len() <= i < s.len() implies #[trigger] s[i] == '/' || s[i] == '\\' by {
            if i < s.len() - 1 {
                assert(rest[i] == s[i]);
            }
        }
    }
    assert(r =~= s.take(r.len() as int));
}

/// The home that is named on the command line wins over the environment's, and
/// that over the engine's own.
pub proof fn a_named_home_wins(
    override_dir: Seq<char>,
    env: Option<Seq<char>>,
    engine_default: Option<Seq<char>>,
    windows: bool,
)
    ensures
        override_dir.len() > 0 ==> home_of(override_dir, env, engine_default, windows) == normalized(
            override_dir,
            windows,
        ),
        override_dir.len() == 0 && env is Some ==> home_of(override_dir, env, engine_default, windows) == normalized(
            env->0,
            windows,
        ),
        override_dir.len() == 0 && env is None && engine_default is Some ==> home_of(
            override_dir,
            env,
            engine_default,
            windows,
        ) == normalized(engine_default->0, windows),
        override_dir.len() == 0 && env is None && engine_default is None ==> home_of(
            override_dir,
            env,
            engine_default,
            windows,
        ).len() == 0,
{
}

/// State is kept where the user says; else, on Windows, with the local data of
/// applications, and elsewhere under the home directory. Windows' own variables
/// mean nothing elsewhere.
pub proof fn state_is_kept_where_the_system_does(env: StateEnv, windows: bool)
    ensures
        env.xdg_state_home is Some ==> state_of(env, windows) == normalized(env.xdg_state_home->0@, windows)
            + "/runanywhere"@,
        env.xdg_state_home is None && windows && env.local_app_data is Some ==> state_of(env, windows) == normalized(
            env.local_app_data->0@,
            windows,
        ) + "/RunAnywhere/state"@,
        env.xdg_state_home is None && windows && env.local_app_data is None && env.user_profile is Some ==> state_of(
            env,
            windows,
        ) == normalized(env.user_profile->0@, windows) + "/AppData/Local/RunAnywhere/state"@,
        env.xdg_state_home is None && !windows && env.home is Some ==> state_of(env, windows) == normalized(
            env.home->0@,
            windows,
        ) + "/.local/state/runanywhere"@,
        env.xdg_state_home is None && !windows && env.home is None ==> state_of(env, windows).len() == 0,
{
}

} // verus!
