//! Where the daemon's control socket lives.
//!
//! Paths are taken and given as the bytes of a Unix path.

use vstd::prelude::*;

verus! {

/// The byte that separates the components of a path.
pub open spec fn separator() -> u8 {
    47u8
}

/// `base` with the relative path `component` appended: a separator goes
/// between them unless `base` is empty or already ends in one.
pub open spec fn join(base: Seq<u8>, component: Seq<u8>) -> Seq<u8> {
    if base.len() == 0 || base.last() == separator() {
        base + component
    } else {
        base.push(separator()) + component
    }
}

/// The bytes of `fenster`, the daemon's directory.
pub open spec fn socket_dir_name() -> Seq<u8> {
    seq![102u8, 101u8, 110u8, 115u8, 116u8, 101u8, 114u8]
}

/// The bytes of `daemon.sock`, the socket's file name.
pub open spec fn socket_file_name() -> Seq<u8> {
    seq![100u8, 97u8, 101u8, 109u8, 111u8, 110u8, 46u8, 115u8, 111u8, 99u8, 107u8]
}

/// The socket path: `override_path` where it is set, else
/// `fenster/daemon.sock` under the runtime directory, or under the
/// temporary directory where there is no runtime directory.
pub open spec fn socket_path(
    override_path: Option<Seq<u8>>,
    runtime_dir: Option<Seq<u8>>,
    temp_dir: Seq<u8>,
) -> Seq<u8> {
    match override_path {
        Some(p) => p,
        None => {
            let base = match runtime_dir {
                Some(d) => d,
                None => temp_dir,
            };
            join(join(base, socket_dir_name()), socket_file_name())
        },
    }
}

/// Appends the relative path `component` to `path`, with a separator
/// between them unless `path` is empty or already ends in one.
pub fn push_component(path: &mut Vec<u8>, component: &[u8])
    ensures
        final(path)@ == join(old(path)@, component@),
{
    let n = path.len();
    if n > 0 && path[n - 1] != 47u8 {
        path.push(47u8);
    }
    let ghost start = path@;
    let mut i: usize = 0;
    while i < component.len()
        invariant
            i <= component@.len(),
            path@ == start + component@.subrange(0, i as int),
        decreases component@.len() - i,
    {
        path.push(component[i]);
        i += 1;
        assert(path@ =~= start + component@.subrange(0, i as int));
    }
    assert(component@.subrange(0, i as int) =~= component@);
}

/// The path of the daemon's control socket. `override_path` is the value
/// of the `FENSTER_SOCKET_PATH` environment variable, if it is set;
/// `runtime_dir` is the user's runtime directory, if there is one; and
/// `temp_dir` is the system's temporary directory.
pub fn get_socket_path(
    override_path: Option<Vec<u8>>,
    runtime_dir: Option<Vec<u8>>,
    temp_dir: Vec<u8>,
) -> (p: Vec<u8>)
    ensures
        p@ == socket_path(
            match override_path {
                Some(v) => Some(v@),
                None => None,
            },
            match runtime_dir {
                Some(v) => Some(v@),
                None => None,
            },
            temp_dir@,
        ),
{
    match override_path {
        Some(p) => p,
        None => {
            let mut path = match runtime_dir {
                Some(d) => d,
                None => temp_dir,
            };
            let dir: [u8; 7] = [102u8, 101u8, 110u8, 115u8, 116u8, 101u8, 114u8];
            let file: [u8; 11] = [
                100u8,
                97u8,
                101u8,
                109u8,
                111u8,
                110u8,
                46u8,
                115u8,
                111u8,
                99u8,
                107u8,
            ];
            assert(dir@ == socket_dir_name());
            assert(file@ == socket_file_name());
            push_component(&mut path, &dir);
            push_component(&mut path, &file);
            path
        },
    }
}

/// The socket path is the override where there is one. Otherwise it is
/// `fenster/daemon.sock` under the runtime directory, or under the
/// temporary directory where there is no runtime directory, with exactly
/// one `/` between the directory and `fenster`: one is added unless the
/// directory is empty or already ends in one.
pub proof fn lemma_socket_path_layout(
    override_path: Option<Seq<u8>>,
    runtime_dir: Option<Seq<u8>>,
    temp_dir: Seq<u8>,
)
    ensures
        ({
            let p = socket_path(override_path, runtime_dir, temp_dir);
            let base = match runtime_dir {
                Some(d) => d,
                None => temp_dir,
            };
            // "fenster/daemon.sock"
            let tail = seq![
                102u8, 101u8, 110u8, 115u8, 116u8, 101u8, 114u8, 47u8, 100u8, 97u8, 101u8,
                109u8, 111u8, 110u8, 46u8, 115u8, 111u8, 99u8, 107u8,
            ];
            &&& override_path matches Some(o) ==> p == o
            &&& override_path is None && base.len() > 0 && base.last() != 47u8 ==> p == base
                + seq![47u8] + tail
            &&& override_path is None && (base.len() == 0 || base.last() == 47u8) ==> p == base
                + tail
        }),
{
    if override_path is None {
        let base = match runtime_dir {
            Some(d) => d,
            None => temp_dir,
        };
        let tail = seq![
            102u8, 101u8, 110u8, 115u8, 116u8, 101u8, 114u8, 47u8, 100u8, 97u8, 101u8,
            109u8, 111u8, 110u8, 46u8, 115u8, 111u8, 99u8, 107u8,
        ];
        let first = join(base, socket_dir_name());
        assert(first.len() > 0 && first.last() == 114u8);
        if base.len() > 0 && base.last() != 47u8 {
            assert(join(first, socket_file_name()) =~= base + seq![47u8] + tail);
        } else {
            assert(join(first, socket_file_name()) =~= base + tail);
        }
    }
}

} // verus!
