//! The handle over a resolved configuration file path, and the
//! path-level decisions its file operations need.

use vstd::prelude::*;

use crate::paths::direct_path;
use crate::paths::joined;
use crate::paths::namespaced_path;
use crate::paths::parent_of;

verus! {

/// Relies on `dirs::home_dir`: the user's home directory, where the
/// platform and environment define one.  A handle must never point
/// below a relative or empty base, so this aborts where no home
/// directory can be resolved, rather than carry the failure on.
#[verifier::external_body]
fn home_dir() -> (r: String) {
    dirs::home_dir().expect("get home dir").to_string_lossy().into_owned()
}

/// Appends a separator and one further component to `base`.
fn join_component(base: String, name: &str) -> (r: String)
    ensures
        r@ == joined(base@, name@),
{
    let mut r = base;
    r.append("/");
    r.append(name);
    r
}

/// A configuration file in the current user's home directory: one
/// resolved path, held as text, and nothing else.
#[derive(Debug, Clone)]
pub struct HomeConfig {
    path: String,
}

impl View for HomeConfig {
    type V = Seq<char>;

    closed spec fn view(&self) -> Seq<char> {
        self.path@
    }
}

impl HomeConfig {
    /// The configuration file of an application, under the home
    /// directory that the platform resolves:
    /// `<home>/.config/<app_name>/<file_name>`.
    pub fn with_config_dir(app_name: &str, file_name: &str) -> (r: Self)
        ensures
            exists|home: Seq<char>| r@ == namespaced_path(home, app_name@, file_name@),
    {
        let home = home_dir();
        Self::with_config_dir_in(home.as_str(), app_name, file_name)
    }

    /// The configuration file of an application under an explicit
    /// base directory: `<home>/.config/<app_name>/<file_name>`.
    pub fn with_config_dir_in(home: &str, app_name: &str, file_name: &str) -> (r: Self)
        ensures
            r@ == namespaced_path(home@, app_name@, file_name@),
    {
        let p = join_component(
            join_component(join_component(home.to_owned(), ".config"), app_name),
            file_name,
        );
        HomeConfig { path: p }
    }

    /// A file at a caller-chosen relative path directly under the home
    /// directory that the platform resolves: `<home>/<rel_path>`.
    pub fn with_file(rel_path: &str) -> (r: Self)
        ensures
            exists|home: Seq<char>| r@ == direct_path(home, rel_path@),
    {
        let home = home_dir();
        Self::with_file_in(home.as_str(), rel_path)
    }

    /// A file at a caller-chosen relative path under an explicit base
    /// directory: `<home>/<rel_path>`.
    pub fn with_file_in(home: &str, rel_path: &str) -> (r: Self)
        ensures
            r@ == direct_path(home@, rel_path@),
    {
        HomeConfig { path: join_component(home.to_owned(), rel_path) }
    }

    /// The resolved configuration file path.
    pub fn path(&self) -> (r: &String)
        ensures
            r@ == self@,
    {
        &self.path
    }

    /// The directory that holds this path: the text before its final
    /// separator, or `None` where the path holds no separator.
    pub fn parent_dir(&self) -> (r: Option<String>)
        ensures
            match r {
                Some(d) => parent_of(self@) == Some(d@),
                None => parent_of(self@) is None,
            },
    {
        let s = self.path.as_str();
        let n = s.unicode_len();
        let mut i = n;
        proof {
            assert(self@.take(n as int) =~= self@);
        }
        loop
            invariant
                i <= n,
                n == s@.len(),
                s@ == self@,
                parent_of(self@) == parent_of(self@.take(i as int)),
            decreases i,
        {
            if i == 0 {
                return None;
            }
            let c = s.get_char(i - 1);
            if c == '/' {
                proof {
                    assert(self@.take(i as int).take(i as int - 1) =~= self@.take(i as int - 1));
                }
                let d = s.substring_char(0, i - 1);
                return Some(d.to_owned());
            }
            proof {
                assert(self@.take(i as int).take(i as int - 1) =~= self@.take(i as int - 1));
            }
            i = i - 1;
        }
    }

    /// The directory a save must create first: the parent of the
    /// target path when the target does not exist yet, nothing
    /// otherwise.
    pub fn dir_to_create(&self, target_exists: bool) -> (r: Option<String>)
        ensures
            target_exists ==> r is None,
            !target_exists ==> (match (r, parent_of(self@)) {
                (Some(d), Some(p)) => d@ == p,
                (None, None) => true,
                _ => false,
            }),
    {
        if target_exists {
            None
        } else {
            self.parent_dir()
        }
    }
}

} // verus!
