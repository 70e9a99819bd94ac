//! The key deployment protocol: installing a secret at its destination
//! with exact permissions and ownership, atomically.
//!
//! The protocol's filesystem effect is modelled as a ghost map from paths
//! to file states; the atomicity and idempotence of the protocol are proved
//! over that model.  The executable side builds the exact command lines and
//! paths each step uses and sequences the keys of one upload call.

use vstd::prelude::*;
use crate::error::HostError;
use crate::text::concat3;

verus! {

/// A secret payload to be installed on a host.  The name, unique within
/// the host's key set, is carried beside the key.
#[derive(Debug)]
pub struct Key {
    /// Payload bytes.
    pub text: Vec<u8>,
    /// Target directory.
    pub dest_dir: String,
    /// Mode string, handed verbatim to the permission-change utility.
    pub permissions: String,
    /// Owning user.
    pub user: String,
    /// Owning group.
    pub group: String,
}

/// The mathematical content of a key.
pub struct KeyView {
    pub text: Seq<u8>,
    pub dest_dir: Seq<char>,
    pub permissions: Seq<char>,
    pub user: Seq<char>,
    pub group: Seq<char>,
}

impl View for Key {
    type V = KeyView;

    open spec fn view(&self) -> KeyView {
        KeyView {
            text: self.text@,
            dest_dir: self.dest_dir@,
            permissions: self.permissions@,
            user: self.user@,
            group: self.group@,
        }
    }
}

/// The destination path of a key: its directory, a separator, its name.
pub open spec fn spec_dest_path(k: KeyView, name: Seq<char>) -> Seq<char> {
    k.dest_dir + "/"@ + name
}

/// The ownership argument of a key: `user:group`.
pub open spec fn spec_owner(k: KeyView) -> Seq<char> {
    k.user + ":"@ + k.group
}

/// The destination path of a key.
pub fn dest_path(name: &str, key: &Key) -> (r: String)
    ensures
        r@ == spec_dest_path(key@, name@),
{
    concat3(key.dest_dir.as_str(), "/", name)
}

/// The permission-change command run against the scratch path.
pub fn chmod_command(key: &Key, temp_path: &str) -> (r: Vec<String>)
    ensures
        r.deep_view() =~~= seq!["chmod"@, key@.permissions, temp_path@],
{
    let mut v: Vec<String> = Vec::new();
    v.push(String::from_str("chmod"));
    v.push(key.permissions.clone());
    v.push(String::from_str(temp_path));
    v
}

/// The ownership-change command run against the scratch path.
pub fn chown_command(key: &Key, temp_path: &str) -> (r: Vec<String>)
    ensures
        r.deep_view() =~~= seq!["chown"@, spec_owner(key@), temp_path@],
{
    let mut v: Vec<String> = Vec::new();
    v.push(String::from_str("chown"));
    v.push(concat3(key.user.as_str(), ":", key.group.as_str()));
    v.push(String::from_str(temp_path));
    v
}

/// The state of one file in the ghost filesystem model.
pub struct FileModel {
    pub content: Seq<u8>,
    pub mode: Seq<char>,
    pub owner: Seq<char>,
}

/// The fully installed file a key's deployment produces.
pub open spec fn spec_installed_file(k: KeyView) -> FileModel {
    FileModel { content: k.text, mode: k.permissions, owner: spec_owner(k) }
}

/// One step of the deployment protocol for a single key.
#[derive(Clone, Copy, PartialEq, Eq, Structural, Debug)]
pub enum KeyStep {
    /// Create a fresh scratch file with restrictive default permissions.
    CreateTemp,
    /// Write the payload fully into the scratch file.
    WriteTemp,
    /// Change the scratch file's mode to the requested mode string.
    SetMode,
    /// Change the scratch file's ownership to `user:group`.
    SetOwner,
    /// Ensure the destination directory exists.
    EnsureDestDir,
    /// Atomically rename the scratch file onto the destination path.
    Install,
}

/// The effect of one protocol step on the ghost filesystem.  `init_mode`
/// and `init_owner` are whatever restrictive mode and creating owner the
/// scratch location gives a fresh file.
pub open spec fn apply_key_step(
    fs: Map<Seq<char>, FileModel>,
    k: KeyView,
    name: Seq<char>,
    temp: Seq<char>,
    init_mode: Seq<char>,
    init_owner: Seq<char>,
    step: KeyStep,
) -> Map<Seq<char>, FileModel> {
    match step {
        KeyStep::CreateTemp => fs.insert(
            temp,
            FileModel { content: Seq::empty(), mode: init_mode, owner: init_owner },
        ),
        KeyStep::WriteTemp => fs.insert(
            temp,
            FileModel { content: k.text, mode: fs[temp].mode, owner: fs[temp].owner },
        ),
        KeyStep::SetMode => fs.insert(
            temp,
            FileModel { content: fs[temp].content, mode: k.permissions, owner: fs[temp].owner },
        ),
        KeyStep::SetOwner => fs.insert(
            temp,
            FileModel { content: fs[temp].content, mode: fs[temp].mode, owner: spec_owner(k) },
        ),
        KeyStep::EnsureDestDir => fs,
        KeyStep::Install => fs.remove(temp).insert(spec_dest_path(k, name), fs[temp]),
    }
}

/// The protocol: scratch file first, then mode and ownership on the
/// scratch path, and one atomic rename last.
pub open spec fn key_plan() -> Seq<KeyStep> {
    seq![
        KeyStep::CreateTemp,
        KeyStep::WriteTemp,
        KeyStep::SetMode,
        KeyStep::SetOwner,
        KeyStep::EnsureDestDir,
        KeyStep::Install,
    ]
}

/// The effect of a sequence of protocol steps, applied in order.
pub open spec fn apply_key_steps(
    fs: Map<Seq<char>, FileModel>,
    k: KeyView,
    name: Seq<char>,
    temp: Seq<char>,
    init_mode: Seq<char>,
    init_owner: Seq<char>,
    steps: Seq<KeyStep>,
) -> Map<Seq<char>, FileModel>
    decreases steps.len(),
{
    if steps.len() == 0 {
        fs
    } else {
        apply_key_step(
            apply_key_steps(fs, k, name, temp, init_mode, init_owner, steps.drop_last()),
            k,
            name,
            temp,
            init_mode,
            init_owner,
            steps.last(),
        )
    }
}

/// What holds after any prefix of the protocol, provided the scratch path
/// differs from the destination path:
/// - before the final step, the destination path is exactly what it was —
///   a concurrent observer sees either the previous file (or none), never
///   a partial one, and an abort at any step leaves no partial file;
/// - every path other than the scratch and destination paths is untouched;
/// - after the full protocol, the destination holds the fully-correct
///   installed file and the scratch file is gone.
pub proof fn lemma_key_plan_prefix(
    fs: Map<Seq<char>, FileModel>,
    k: KeyView,
    name: Seq<char>,
    temp: Seq<char>,
    init_mode: Seq<char>,
    init_owner: Seq<char>,
    i: int,
)
    requires
        temp != spec_dest_path(k, name),
        0 <= i <= key_plan().len(),
    ensures
        ({
            let cur = apply_key_steps(fs, k, name, temp, init_mode, init_owner, key_plan().take(i));
            let dest = spec_dest_path(k, name);
            &&& (i < key_plan().len() ==> cur.contains_key(dest) == fs.contains_key(dest))
            &&& (i < key_plan().len() && fs.contains_key(dest) ==> cur[dest] == fs[dest])
            &&& (1 <= i <= 5 ==> cur.contains_key(temp))
            &&& (2 <= i <= 5 ==> cur[temp].content == k.text)
            &&& (3 <= i <= 5 ==> cur[temp].mode == k.permissions)
            &&& (4 <= i <= 5 ==> cur[temp].owner == spec_owner(k))
            &&& (i == key_plan().len() ==> cur.contains_key(dest) && cur[dest]
                == spec_installed_file(k) && !cur.contains_key(temp))
            &&& (forall|p: Seq<char>|
                p != temp && p != dest ==> #[trigger] cur.contains_key(p) == fs.contains_key(p))
            &&& (forall|p: Seq<char>|
                p != temp && p != dest && fs.contains_key(p) ==> #[trigger] cur[p] == fs[p])
        }),
    decreases i,
{
    if i > 0 {
        lemma_key_plan_prefix(fs, k, name, temp, init_mode, init_owner, i - 1);
        assert(key_plan().take(i).drop_last() =~= key_plan().take(i - 1));
        assert(key_plan().take(i).last() == key_plan()[i - 1]);
    } else {
        assert(key_plan().take(0) =~= Seq::<KeyStep>::empty());
    }
}

/// Atomicity of key deployment: while the installation of a key is under
/// way — after any proper prefix of the protocol's steps — the destination
/// path holds exactly what it held before the protocol began; after the
/// full protocol it holds the file with the key's payload, mode and
/// ownership, all set before the atomic rename.
pub proof fn lemma_key_deployment_atomic(
    fs: Map<Seq<char>, FileModel>,
    k: KeyView,
    name: Seq<char>,
    temp: Seq<char>,
    init_mode: Seq<char>,
    init_owner: Seq<char>,
    i: int,
)
    requires
        temp != spec_dest_path(k, name),
        0 <= i <= key_plan().len(),
    ensures
        ({
            let cur = apply_key_steps(fs, k, name, temp, init_mode, init_owner, key_plan().take(i));
            let dest = spec_dest_path(k, name);
            &&& (i < key_plan().len() ==> cur.contains_key(dest) == fs.contains_key(dest))
            &&& (i < key_plan().len() && fs.contains_key(dest) ==> cur[dest] == fs[dest])
            &&& (i == key_plan().len() ==> cur.contains_key(dest) && cur[dest]
                == spec_installed_file(k))
        }),
{
    lemma_key_plan_prefix(fs, k, name, temp, init_mode, init_owner, i);
}

/// Idempotence of key deployment: installing the same key twice, with the
/// same content and through a scratch path distinct from the destination,
/// yields the same filesystem — in particular the same final file state at
/// the destination — as installing it once.
pub proof fn lemma_key_deployment_idempotent(
    fs: Map<Seq<char>, FileModel>,
    k: KeyView,
    name: Seq<char>,
    temp: Seq<char>,
    init_mode: Seq<char>,
    init_owner: Seq<char>,
)
    requires
        temp != spec_dest_path(k, name),
    ensures
        ({
            let once = apply_key_steps(fs, k, name, temp, init_mode, init_owner, key_plan());
            let twice = apply_key_steps(once, k, name, temp, init_mode, init_owner, key_plan());
            &&& twice =~= once
            &&& once[spec_dest_path(k, name)] == spec_installed_file(k)
        }),
{
    let n = key_plan().len() as int;
    let dest = spec_dest_path(k, name);
    let once = apply_key_steps(fs, k, name, temp, init_mode, init_owner, key_plan());
    let twice = apply_key_steps(once, k, name, temp, init_mode, init_owner, key_plan());
    assert(key_plan().take(n) =~= key_plan());
    lemma_key_plan_prefix(fs, k, name, temp, init_mode, init_owner, n);
    lemma_key_plan_prefix(once, k, name, temp, init_mode, init_owner, n);
    assert forall|p: Seq<char>| #[trigger]
        twice.contains_key(p) == once.contains_key(p) && (once.contains_key(p) ==> twice[p]
            == once[p]) by {
        if p == temp {
        } else if p == dest {
        } else {
            assert(twice.contains_key(p) == once.contains_key(p));
        }
    }
    assert(twice =~= once);
}

/// When one key is fully installed and a second key's installation aborts
/// partway, the first key's file is fully present and the second key's
/// destination holds exactly what it held before the call: no rollback of
/// installed keys, no partial file for the failed one.
pub proof fn lemma_upload_abort_leaves_prefix(
    fs: Map<Seq<char>, FileModel>,
    k1: KeyView,
    name1: Seq<char>,
    temp1: Seq<char>,
    k2: KeyView,
    name2: Seq<char>,
    temp2: Seq<char>,
    init_mode: Seq<char>,
    init_owner: Seq<char>,
    j: int,
)
    requires
        temp1 != spec_dest_path(k1, name1),
        temp2 != spec_dest_path(k2, name2),
        spec_dest_path(k1, name1) != spec_dest_path(k2, name2),
        temp2 != spec_dest_path(k1, name1),
        temp1 != spec_dest_path(k2, name2),
        0 <= j < key_plan().len(),
    ensures
        ({
            let mid = apply_key_steps(fs, k1, name1, temp1, init_mode, init_owner, key_plan());
            let fin = apply_key_steps(
                mid,
                k2,
                name2,
                temp2,
                init_mode,
                init_owner,
                key_plan().take(j),
            );
            &&& fin.contains_key(spec_dest_path(k1, name1))
            &&& fin[spec_dest_path(k1, name1)] == spec_installed_file(k1)
            &&& fin.contains_key(spec_dest_path(k2, name2)) == fs.contains_key(
                spec_dest_path(k2, name2),
            )
            &&& (fs.contains_key(spec_dest_path(k2, name2)) ==> fin[spec_dest_path(k2, name2)]
                == fs[spec_dest_path(k2, name2)])
        }),
{
    let n = key_plan().len() as int;
    let dest1 = spec_dest_path(k1, name1);
    let dest2 = spec_dest_path(k2, name2);
    let mid = apply_key_steps(fs, k1, name1, temp1, init_mode, init_owner, key_plan());
    assert(key_plan().take(n) =~= key_plan());
    lemma_key_plan_prefix(fs, k1, name1, temp1, init_mode, init_owner, n);
    lemma_key_plan_prefix(mid, k2, name2, temp2, init_mode, init_owner, j);
}

/// Sequences the keys of one upload call: keys are taken in order, the
/// first failure aborts the remaining uploads and is surfaced with the
/// failed key's name, and keys already installed in the same call stay
/// installed.
pub struct KeyUploader {
    entries: Vec<(String, Key)>,
    idx: usize,
    failure: Option<HostError>,
}

impl KeyUploader {
    /// The keys of this call, in upload order.
    pub closed spec fn spec_entries(self) -> Seq<(String, Key)> {
        self.entries@
    }

    /// How many keys have been fully installed so far.
    pub closed spec fn spec_idx(self) -> int {
        self.idx as int
    }

    /// The recorded failure, if any.
    pub closed spec fn spec_failure(self) -> Option<HostError> {
        self.failure
    }

    pub open spec fn failed(self) -> bool {
        self.spec_failure() is Some
    }

    /// Whether another key still awaits installation.
    pub open spec fn in_progress(self) -> bool {
        !self.failed() && self.spec_idx() < self.spec_entries().len()
    }

    pub open spec fn wf(self) -> bool {
        0 <= self.spec_idx() <= self.spec_entries().len()
    }

    /// The names of the keys installed so far, in order.
    pub open spec fn spec_installed_names(self) -> Seq<Seq<char>> {
        self.spec_entries().take(self.spec_idx()).map_values(|e: (String, Key)| e.0@)
    }

    pub fn new(entries: Vec<(String, Key)>) -> (r: KeyUploader)
        ensures
            r.wf(),
            r.spec_entries() == entries@,
            r.spec_idx() == 0,
            !r.failed(),
    {
        KeyUploader { entries, idx: 0, failure: None }
    }

    /// The next key to install, if the call is still in progress.
    pub fn current(&self) -> (r: Option<&(String, Key)>)
        requires
            self.wf(),
        ensures
            match r {
                Some(e) => self.in_progress() && *e == self.spec_entries()[self.spec_idx()],
                None => !self.in_progress(),
            },
    {
        if self.failure.is_none() && self.idx < self.entries.len() {
            Some(&self.entries[self.idx])
        } else {
            None
        }
    }

    /// Reports the outcome of installing the current key: success moves on
    /// to the next key; a failure aborts the call, recording the failed
    /// key's name and the cause, and leaves the installed prefix as it is.
    pub fn step(&mut self, outcome: Result<(), String>)
        requires
            old(self).wf(),
            old(self).in_progress(),
        ensures
            final(self).wf(),
            final(self).spec_entries() == old(self).spec_entries(),
            match outcome {
                Ok(_) => {
                    &&& final(self).spec_idx() == old(self).spec_idx() + 1
                    &&& !final(self).failed()
                },
                Err(cause) => {
                    &&& final(self).spec_idx() == old(self).spec_idx()
                    &&& final(self).spec_failure() matches Some(HostError::KeyFailed(n, c))
                        && n@ == old(self).spec_entries()[old(self).spec_idx()].0@ && c@ == cause@
                },
            },
    {
        let n = self.entries.len();
        match outcome {
            Ok(_) => {
                assert(self.idx < n);
                self.idx = self.idx + 1;
            },
            Err(cause) => {
                self.failure = Some(
                    HostError::KeyFailed(self.entries[self.idx].0.clone(), cause),
                );
            },
        }
    }

    /// The result of the whole call: the first failure if there was one,
    /// success only when every key was installed.
    pub fn finish(self) -> (r: Result<(), HostError>)
        requires
            self.wf(),
            !self.in_progress(),
        ensures
            match self.spec_failure() {
                Some(e) => r == Result::<(), HostError>::Err(e),
                None => r is Ok && self.spec_idx() == self.spec_entries().len(),
            },
    {
        match self.failure {
            Some(e) => Err(e),
            None => Ok(()),
        }
    }
}

} // verus!
