//! Local socket handles that a plugin opens through the capability bridge.
//!
//! A plugin may only reach sockets below the paths it was granted: a grant
//! maps a declared path prefix to a real directory. A request for a path
//! that starts with a granted prefix is tried at `root + "/" + rest`, where
//! `rest` is what follows the prefix; grants are tried in declaration order
//! and the first real path that connects wins. Every failure is reported to
//! the plugin as the handle `-1`.
use vstd::prelude::*;
use crate::text::{is_prefix, starts_with};

verus! {

/// A plugin may hold handles while it holds at most this many.
pub const MAX_OPEN_INDEX: usize = 255;

/// The most bytes one read hands back; also the default read size.
pub const READ_CAP: u64 = 1024;

/// The real path at which a request is tried under a grant of `root`.
pub open spec fn mapped_path(root: Seq<char>, rest: Seq<char>) -> Seq<char> {
    root + seq!['/'] + rest
}

/// The real paths to try for `requested`, from grant `k` on.
pub open spec fn candidates_from(grants: Seq<(String, String)>, requested: Seq<char>, k: int) -> Seq<
    Seq<char>,
>
    decreases grants.len() - k,
{
    if k < 0 || k >= grants.len() {
        Seq::empty()
    } else {
        let prefix = grants[k].0@;
        let here = if is_prefix(prefix, requested) {
            seq![mapped_path(grants[k].1@, requested.subrange(prefix.len() as int, requested.len() as int))]
        } else {
            Seq::empty()
        };
        here + candidates_from(grants, requested, k + 1)
    }
}

/// The real paths to try for `requested` under `grants`; none without grants.
pub open spec fn candidates(grants: Option<Seq<(String, String)>>, requested: Seq<char>) -> Seq<
    Seq<char>,
> {
    match grants {
        Some(g) => candidates_from(g, requested, 0),
        None => Seq::empty(),
    }
}

/// The socket table of one plugin instance.
pub struct SocketTable<S> {
    socks: Vec<S>,
    allowed_paths: Option<Vec<(String, String)>>,
}

impl<S> SocketTable<S> {
    /// The open sockets; a socket's handle is its position.
    pub closed spec fn handles(&self) -> Seq<S> {
        self.socks@
    }

    /// The path grants, as declared prefix and real root.
    pub closed spec fn grants(&self) -> Option<Seq<(String, String)>> {
        match self.allowed_paths {
            Some(g) => Some(g@),
            None => None,
        }
    }

    /// Whether the table takes no further socket.
    pub open spec fn full(&self) -> bool {
        self.handles().len() > MAX_OPEN_INDEX
    }

    /// The real paths worth trying for `requested`: none when the table is
    /// full or nothing is granted.
    pub open spec fn to_try(&self, requested: Seq<char>) -> Seq<Seq<char>> {
        if self.full() {
            Seq::empty()
        } else {
            candidates(self.grants(), requested)
        }
    }

    /// What opening `requested` returns when a socket did (`connected`) or
    /// did not connect at one of the paths tried.
    pub open spec fn open_result(&self, requested: Seq<char>, connected: bool) -> int {
        if self.to_try(requested).len() > 0 && connected {
            self.handles().len() as int
        } else {
            -1
        }
    }

    /// An empty table under the given grants.
    pub fn new(allowed_paths: Option<Vec<(String, String)>>) -> (r: Self)
        ensures
            r.handles().len() == 0,
            r.grants() == (match allowed_paths {
                Some(g) => Some(g@),
                None => None::<Seq<(String, String)>>,
            }),
    {
        SocketTable { socks: Vec::new(), allowed_paths }
    }

    /// The number of open sockets.
    pub fn len(&self) -> (r: usize)
        ensures
            r == self.handles().len(),
    {
        self.socks.len()
    }

    /// The real paths to try, in order, for a plugin's request to open
    /// `requested`.
    pub fn open_candidates(&self, requested: &str) -> (r: Vec<String>)
        ensures
            r@.len() == self.to_try(requested@).len(),
            forall|i: int| 0 <= i < r@.len() ==> #[trigger] r@[i]@ == self.to_try(requested@)[i],
    {
        let mut out: Vec<String> = Vec::new();
        if self.socks.len() > MAX_OPEN_INDEX {
            return out;
        }
        match &self.allowed_paths {
            None => out,
            Some(grants) => {
                let n = grants.len();
                let mut k: usize = 0;
                while k < n
                    invariant
                        0 <= k <= n,
                        n == grants@.len(),
                        self.grants() == Some(grants@),
                        !self.full(),
                        out@.len() + candidates_from(grants@, requested@, k as int).len()
                            == candidates_from(grants@, requested@, 0).len(),
                        forall|i: int|
                            0 <= i < out@.len() ==> #[trigger] out@[i]@ == candidates_from(
                                grants@,
                                requested@,
                                0,
                            )[i],
                        forall|i: int|
                            0 <= i < candidates_from(grants@, requested@, k as int).len()
                                ==> candidates_from(grants@, requested@, k as int)[i]
                                == candidates_from(grants@, requested@, 0)[out@.len() + i],
                    decreases n - k,
                {
                    let prefix = grants[k].0.as_str();
                    let ghost rest_cands = candidates_from(grants@, requested@, k + 1);
                    if starts_with(requested, prefix) {
                        let plen = prefix.unicode_len();
                        let rlen = requested.unicode_len();
                        let mut path = grants[k].1.clone();
                        path.append("/");
                        path.append(requested.substring_char(plen, rlen));
                        proof {
                            reveal_strlit("/");
                            assert(path@ =~= mapped_path(
                                grants@[k as int].1@,
                                requested@.subrange(plen as int, rlen as int),
                            ));
                            assert(candidates_from(grants@, requested@, k as int)[0] == path@);
                        }
                        out.push(path);
                    }
                    proof {
                        assert forall|i: int| 0 <= i < rest_cands.len() implies rest_cands[i]
                            == candidates_from(grants@, requested@, 0)[out@.len() + i] by {
                            let here_len = candidates_from(grants@, requested@, k as int).len()
                                - rest_cands.len();
                            assert(candidates_from(grants@, requested@, k as int)[here_len + i]
                                == rest_cands[i]);
                        }
                    }
                    k = k + 1;
                }
                out
            },
        }
    }

    /// Records the outcome of a request to open `requested`. `connection` is
    /// the socket that connected at the first path of `open_candidates` that
    /// worked, or `None`. Returns the new handle, or `-1` when the table is
    /// full, nothing granted matches, or nothing connected; the table then
    /// stays as it was.
    pub fn open_clientfd(&mut self, requested: &str, connection: Option<S>) -> (r: i64)
        ensures
            r == old(self).open_result(requested@, connection is Some),
            r != -1 ==> final(self).handles() == old(self).handles().push(connection->0),
            r == -1 ==> final(self).handles() == old(self).handles(),
            final(self).grants() == old(self).grants(),
    {
        let tried = self.open_candidates(requested);
        if tried.len() == 0 {
            return -1;
        }
        match connection {
            Some(sock) => {
                self.socks.push(sock);
                (self.socks.len() - 1) as i64
            },
            None => -1,
        }
    }

    /// The position of the socket that `handle` names, if it names one.
    pub fn handle_index(&self, handle: i64) -> (r: Option<usize>)
        ensures
            r is Some <==> 0 <= handle < self.handles().len(),
            r is Some ==> r->0 == handle,
    {
        if handle >= 0 && (handle as u64) < (self.socks.len() as u64) {
            Some(handle as usize)
        } else {
            None
        }
    }

    /// The socket at position `index`, to read or write through.
    pub fn socket_mut(&mut self, index: usize) -> (r: &mut S)
        requires
            index < old(self).handles().len(),
        ensures
            *r == old(self).handles()[index as int],
            final(self).handles() == old(self).handles().update(index as int, *final(r)),
            final(self).grants() == old(self).grants(),
    {
        &mut self.socks[index]
    }
}

proof fn lemma_no_match_no_candidates(grants: Seq<(String, String)>, requested: Seq<char>, k: int)
    requires
        0 <= k,
        forall|j: int| 0 <= j < grants.len() ==> !is_prefix(#[trigger] grants[j].0@, requested),
    ensures
        candidates_from(grants, requested, k).len() == 0,
    decreases grants.len() - k,
{
    if k < grants.len() {
        lemma_no_match_no_candidates(grants, requested, k + 1);
    }
}

/// A request to open a path that no granted prefix matches is refused with
/// `-1`, whatever connected, both when the plugin holds no grants and when
/// its grants just do not match.
pub proof fn lemma_unmatched_request_refused<S>(table: SocketTable<S>, requested: Seq<char>)
    requires
        table.grants() matches Some(g) ==> forall|j: int|
            0 <= j < g.len() ==> !is_prefix(#[trigger] g[j].0@, requested),
    ensures
        table.open_result(requested, true) == -1,
        table.open_result(requested, false) == -1,
{
    if let Some(g) = table.grants() {
        lemma_no_match_no_candidates(g, requested, 0);
    }
}

/// How many bytes a read asks for: `max_len`, or `READ_CAP` when `max_len`
/// is zero or above it.
pub fn read_cap(max_len: u64) -> (r: usize)
    ensures
        r == (if max_len == 0 || max_len > READ_CAP {
            READ_CAP
        } else {
            max_len
        }),
{
    if max_len == 0 || max_len > READ_CAP {
        READ_CAP as usize
    } else {
        max_len as usize
    }
}

/// What a read hands back after `read` bytes arrived in `buf`: the bytes
/// read, except that a read of `READ_CAP` bytes or more is discarded whole.
/// (A full-size read is thrown away; this boundary is kept as it has always
/// behaved, though it is likely unintended.)
pub fn finish_read(buf: Vec<u8>, read: usize) -> (r: Vec<u8>)
    ensures
        read >= READ_CAP ==> r@.len() == 0,
        read < READ_CAP && read <= buf@.len() ==> r@ == buf@.subrange(0, read as int),
        read < READ_CAP && read > buf@.len() ==> r@ == buf@,
{
    if read as u64 >= READ_CAP {
        return Vec::new();
    }
    let mut out = buf;
    out.truncate(read);
    out
}

} // verus!
