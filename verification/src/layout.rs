//! Where a container's files lie: its runtime directory, the state file and
//! the start FIFO in it, and the configuration in its bundle.

use vstd::prelude::*;
use vstd::string::{StrSliceExecFns, StringExecFns};

verus! {

/// The path of the runtime directory of container `id` under the user's
/// runtime root.
pub open spec fn runtime_dir_path(root: Seq<char>, id: Seq<char>) -> Seq<char> {
    root + "/containr/"@ + id
}

/// The path of the state file in a runtime directory.
pub open spec fn state_file_path(dir: Seq<char>) -> Seq<char> {
    dir + "/state.json"@
}

/// The path of the start FIFO in a runtime directory.
pub open spec fn start_fifo_path(dir: Seq<char>) -> Seq<char> {
    dir + "/start"@
}

/// The path of the configuration in a bundle.
pub open spec fn config_file_path(bundle: Seq<char>) -> Seq<char> {
    bundle + "/config.json"@
}

/// Whether an id can name a directory: it is not empty, holds neither `/`
/// nor NUL, and is neither `.` nor `..`.
pub open spec fn path_safe(id: Seq<char>) -> bool {
    &&& id.len() > 0
    &&& !id.contains('/')
    &&& !id.contains('\0')
    &&& id != seq!['.']
    &&& id != seq!['.', '.']
}

/// The last component of a path: what follows its last `/`.
pub open spec fn basename(path: Seq<char>) -> Seq<char>
    decreases path.len(),
{
    if path.len() == 0 || path.last() == '/' {
        Seq::empty()
    } else {
        basename(path.drop_last()).push(path.last())
    }
}

/// Whether an id can name a directory: it is not empty, holds neither `/`
/// nor NUL, and is neither `.` nor `..`.
pub fn is_path_safe(id: &str) -> (ok: bool)
    ensures
        ok == path_safe(id@),
{
    let len = id.unicode_len();
    if len == 0 {
        return false;
    }
    let mut at: usize = 0;
    while at < len
        invariant
            at <= len,
            len == id@.len(),
            forall|j: int| 0 <= j < at ==> id@[j] != '/' && id@[j] != '\0',
        decreases len - at,
    {
        let c = id.get_char(at);
        if c == '/' || c == '\0' {
            assert(id@.contains(c));
            return false;
        }
        at += 1;
    }
    if len == 1 && id.get_char(0) == '.' {
        assert(id@ =~= seq!['.']);
        return false;
    }
    if len == 2 && id.get_char(0) == '.' && id.get_char(1) == '.' {
        assert(id@ =~= seq!['.', '.']);
        return false;
    }
    proof {
        if id@ == seq!['.'] {
            assert(id@[0] == '.');
        }
        if id@ == seq!['.', '.'] {
            assert(id@[0] == '.' && id@[1] == '.');
        }
    }
    true
}

/// The runtime directory of container `id` under the runtime root `root`.
pub fn runtime_dir(root: &str, id: &str) -> (dir: String)
    ensures
        dir@ == runtime_dir_path(root@, id@),
{
    String::from_str(root).concat("/containr/").concat(id)
}

/// The state file in the runtime directory `dir`.
pub fn state_file(dir: &str) -> (path: String)
    ensures
        path@ == state_file_path(dir@),
{
    String::from_str(dir).concat("/state.json")
}

/// The start FIFO in the runtime directory `dir`.
pub fn start_fifo(dir: &str) -> (path: String)
    ensures
        path@ == start_fifo_path(dir@),
{
    String::from_str(dir).concat("/start")
}

/// The configuration of the bundle at `bundle`.
pub fn config_file(bundle: &str) -> (path: String)
    ensures
        path@ == config_file_path(bundle@),
{
    String::from_str(bundle).concat("/config.json")
}

/// After a `/`, a name without `/` is the basename.
pub proof fn lemma_basename_of_join(prefix: Seq<char>, name: Seq<char>)
    requires
        !name.contains('/'),
    ensures
        basename(prefix + seq!['/'] + name) == name,
    decreases name.len(),
{
    let path = prefix + seq!['/'] + name;
    if name.len() == 0 {
        assert(path.last() == '/');
        assert(basename(path) =~= name);
    } else {
        let shorter = name.drop_last();
        assert(name[name.len() - 1] == name.last());
        assert(name.contains(name.last()));
        assert(path.last() == name.last());
        assert(path.drop_last() =~= prefix + seq!['/'] + shorter);
        assert(!shorter.contains('/')) by {
            if shorter.contains('/') {
                let j = choose|j: int| 0 <= j < shorter.len() && shorter[j] == '/';
                assert(name[j] == '/');
            }
        }
        lemma_basename_of_join(prefix, shorter);
        assert(shorter.push(name.last()) =~= name);
    }
}

/// The runtime directory of a container is named by the container's id.
pub proof fn lemma_runtime_dir_named_by_id(root: Seq<char>, id: Seq<char>)
    requires
        path_safe(id),
    ensures
        basename(runtime_dir_path(root, id)) == id,
{
    reveal_strlit("/containr/");
    let lead = "/containr/"@;
    assert(lead.last() == '/');
    assert(root + lead =~= (root + lead.drop_last()) + seq!['/']);
    assert(runtime_dir_path(root, id) =~= (root + lead.drop_last()) + seq!['/'] + id);
    lemma_basename_of_join(root + lead.drop_last(), id);
}

} // verus!
