//! The model of a configuration file path: a sequence of characters,
//! grown from a base directory by appending separator-prefixed
//! components, with the parent of a path read back off the final
//! separator.

use vstd::prelude::*;

verus! {

/// `base` extended by one separator and one further component,
/// Unix-style.
pub open spec fn joined(base: Seq<char>, name: Seq<char>) -> Seq<char> {
    base + "/"@ + name
}

/// The namespaced layout: `<home>/.config/<app_name>/<file_name>`.
pub open spec fn namespaced_path(home: Seq<char>, app_name: Seq<char>, file_name: Seq<char>) -> Seq<
    char,
> {
    joined(joined(joined(home, ".config"@), app_name), file_name)
}

/// The direct layout: `<home>/<rel_path>`.
pub open spec fn direct_path(home: Seq<char>, rel_path: Seq<char>) -> Seq<char> {
    joined(home, rel_path)
}

/// A path is absolute when it starts at the root, Unix-style.
pub open spec fn is_absolute(p: Seq<char>) -> bool {
    p.len() > 0 && p[0] == '/'
}

/// The text before the final separator of `p`, or `None` where `p`
/// holds no separator.
pub open spec fn parent_of(p: Seq<char>) -> Option<Seq<char>>
    decreases p.len(),
{
    if p.len() == 0 {
        None
    } else if p[p.len() - 1] == '/' {
        Some(p.take(p.len() - 1))
    } else {
        parent_of(p.take(p.len() - 1))
    }
}

/// Holds when a single path component carries no separator of its own.
pub open spec fn has_no_separator(name: Seq<char>) -> bool {
    forall|i: int| 0 <= i < name.len() ==> name[i] != '/'
}

/// Joining never loses the base: the result is strictly longer and
/// starts with it.
pub proof fn lemma_joined_keeps_base(base: Seq<char>, name: Seq<char>)
    ensures
        joined(base, name).len() > base.len(),
        joined(base, name).take(base.len() as int) == base,
{
    reveal_strlit("/");
    assert(joined(base, name).take(base.len() as int) =~= base);
}

/// For every home, application name and file name, the namespaced
/// path is exactly the home extended by `/.config/<app>/<file>`; it
/// starts with the home, and it is absolute whenever the home is.
pub proof fn lemma_namespaced_path_form(home: Seq<char>, app_name: Seq<char>, file_name: Seq<char>)
    ensures
        namespaced_path(home, app_name, file_name) == home + "/"@ + ".config"@ + "/"@ + app_name
            + "/"@ + file_name,
        namespaced_path(home, app_name, file_name).take(home.len() as int) == home,
        is_absolute(home) ==> is_absolute(namespaced_path(home, app_name, file_name)),
{
    reveal_strlit("/");
    assert(namespaced_path(home, app_name, file_name) =~= home + "/"@ + ".config"@ + "/"@
        + app_name + "/"@ + file_name);
    lemma_joined_keeps_base(home, ".config"@);
    lemma_joined_keeps_base(joined(home, ".config"@), app_name);
    lemma_joined_keeps_base(joined(joined(home, ".config"@), app_name), file_name);
    assert(namespaced_path(home, app_name, file_name).take(home.len() as int) =~= home);
}

/// Joining and taking the parent are inverse: as long as the appended
/// component carries no separator, the parent of the joined path is
/// exactly the base it was joined onto.
pub proof fn lemma_parent_of_joined(base: Seq<char>, name: Seq<char>)
    requires
        has_no_separator(name),
    ensures
        parent_of(joined(base, name)) == Some(base),
    decreases name.len(),
{
    reveal_strlit("/");
    let j = joined(base, name);
    if name.len() == 0 {
        assert(j[j.len() - 1] == '/');
        assert(j.take(j.len() - 1) =~= base);
    } else {
        assert(j[j.len() - 1] == name[name.len() - 1]);
        assert(j.take(j.len() - 1) =~= joined(base, name.take(name.len() - 1)));
        assert(has_no_separator(name.take(name.len() - 1)));
        lemma_parent_of_joined(base, name.take(name.len() - 1));
    }
}

/// The directory a save must create for a namespaced path whose file
/// name is a single component: exactly the application's own
/// directory, `<home>/.config/<app_name>`.
pub proof fn lemma_namespaced_parent(home: Seq<char>, app_name: Seq<char>, file_name: Seq<char>)
    requires
        has_no_separator(file_name),
    ensures
        parent_of(namespaced_path(home, app_name, file_name)) == Some(
            joined(joined(home, ".config"@), app_name),
        ),
{
    lemma_parent_of_joined(joined(joined(home, ".config"@), app_name), file_name);
}

/// The directory a save must create for a direct path whose relative
/// path is a single component: the home directory itself.
pub proof fn lemma_direct_parent(home: Seq<char>, rel_path: Seq<char>)
    requires
        has_no_separator(rel_path),
    ensures
        parent_of(direct_path(home, rel_path)) == Some(home),
{
    lemma_parent_of_joined(home, rel_path);
}

/// For every home and relative path, the direct path is exactly the
/// home extended by `/<rel_path>`; it starts with the home, and it is
/// absolute whenever the home is.
pub proof fn lemma_direct_path_form(home: Seq<char>, rel_path: Seq<char>)
    ensures
        direct_path(home, rel_path) == home + "/"@ + rel_path,
        direct_path(home, rel_path).take(home.len() as int) == home,
        is_absolute(home) ==> is_absolute(direct_path(home, rel_path)),
{
    lemma_joined_keeps_base(home, rel_path);
}

} // verus!
