use vstd::prelude::*;

use crate::store::DomainError;
use crate::ticket::Ticket;

verus! {

/// What a repository holds: the path of its store, and the tickets of the
/// first load that succeeded, if one has.
pub struct RepositoryView {
    pub file_path: Seq<char>,
    pub cache: Option<Seq<Ticket>>,
}

/// The tickets of a fetch's result.
pub open spec fn tickets_of(r: Result<Vec<Ticket>, DomainError>) -> Result<Seq<Ticket>, DomainError> {
    match r {
        Ok(v) => Ok(v@),
        Err(e) => Err(e),
    }
}

/// What a fetch answers when a load from the store would give `loaded`:
/// the cached tickets if there are any, else what was loaded.
pub open spec fn fetch_answer(
    v: RepositoryView,
    loaded: Result<Seq<Ticket>, DomainError>,
) -> Result<Seq<Ticket>, DomainError> {
    match v.cache {
        Some(c) => Ok(c),
        None => loaded,
    }
}

/// The repository after such a fetch: a load that succeeds fills an empty
/// cache, and nothing else changes it.
pub open spec fn after_fetch(
    v: RepositoryView,
    loaded: Result<Seq<Ticket>, DomainError>,
) -> RepositoryView {
    match v.cache {
        Some(_) => v,
        None => match loaded {
            Ok(ts) => RepositoryView { cache: Some(ts), ..v },
            Err(_) => v,
        },
    }
}

/// A ticket repository over one store file, which loads the store at most
/// once and then answers from its cache.
pub struct TicketRepositoryImpl {
    file_path: String,
    ticket_cache: Option<Vec<Ticket>>,
}

impl View for TicketRepositoryImpl {
    type V = RepositoryView;

    closed spec fn view(&self) -> RepositoryView {
        RepositoryView {
            file_path: self.file_path@,
            cache: match self.ticket_cache {
                Some(v) => Some(v@),
                None => None,
            },
        }
    }
}

/// A copy of a list of tickets.
fn copy_tickets(v: &Vec<Ticket>) -> (r: Vec<Ticket>)
    ensures
        r@ == v@,
{
    let mut r: Vec<Ticket> = Vec::new();
    for k in 0..v.len()
        invariant
            r@ == v@.subrange(0, k as int),
    {
        r.push(v[k].clone());
        proof {
            assert(r@ =~= v@.subrange(0, k + 1));
        }
    }
    proof {
        assert(r@ =~= v@);
    }
    r
}

impl TicketRepositoryImpl {
    /// A repository over the store at `file_path`, with nothing loaded yet.
    pub fn new(file_path: String) -> (r: TicketRepositoryImpl)
        ensures
            r@.file_path == file_path@,
            r@.cache is None,
    {
        TicketRepositoryImpl { file_path, ticket_cache: None }
    }

    /// The path of the store.
    pub fn file_path(&self) -> (r: &String)
        ensures
            r@ == self@.file_path,
    {
        &self.file_path
    }

    /// The tickets of the store. The first fetch that finds the cache empty
    /// calls `load` once and keeps what it gives on success; every later
    /// fetch returns a copy of what was kept and calls nothing.
    pub fn fetch_tickets<F>(&mut self, load: F) -> (r: Result<Vec<Ticket>, DomainError>) where
        F: FnOnce() -> Result<Vec<Ticket>, DomainError>,
        requires
            old(self)@.cache is None ==> load.requires(()),
        ensures
            old(self)@.cache is None ==> load.ensures((), r),
            tickets_of(r) == fetch_answer(old(self)@, tickets_of(r)),
            final(self)@ == after_fetch(old(self)@, tickets_of(r)),
    {
        match &self.ticket_cache {
            Some(cached) => Ok(copy_tickets(cached)),
            None => {
                let loaded = load();
                match loaded {
                    Ok(tickets) => {
                        self.ticket_cache = Some(copy_tickets(&tickets));
                        Ok(tickets)
                    },
                    Err(e) => Err(e),
                }
            },
        }
    }

    /// Succeeds when the store exists (`exists`, as the caller found it);
    /// fails with `FileNotFound` and the store's path otherwise. It creates
    /// nothing.
    pub fn ensure_file_exists_with_template(&self, exists: bool) -> (r: Result<(), DomainError>)
        ensures
            r is Ok <==> exists,
            !exists ==> r is Err && r->Err_0 is FileNotFound && r->Err_0->FileNotFound_0@
                == self@.file_path,
    {
        if exists {
            Ok(())
        } else {
            Err(DomainError::FileNotFound(self.file_path.clone()))
        }
    }
}

/// Fetching twice returns equal tickets: once a fetch has succeeded, the next
/// one answers with the same tickets whatever a load would now read from the
/// store, and leaves the repository as it was.
pub proof fn lemma_fetch_is_load_once(
    v: RepositoryView,
    first: Result<Seq<Ticket>, DomainError>,
    second: Result<Seq<Ticket>, DomainError>,
)
    requires
        fetch_answer(v, first) is Ok,
    ensures
        fetch_answer(after_fetch(v, first), second) == fetch_answer(v, first),
        after_fetch(after_fetch(v, first), second) == after_fetch(v, first),
{
}

} // verus!
