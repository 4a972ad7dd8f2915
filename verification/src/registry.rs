//! The paper registry: it numbers papers in the order of their registration
//! and keeps, for each, its owner, its references, its token and its status.

use vstd::prelude::*;
use crate::address::Address;
use crate::error::RegistryError;

verus! {

/// Where a paper stands.
#[derive(Clone, Copy, Debug, PartialEq, Eq, Structural)]
pub enum PaperStatus {
    Pending,
    Tokenized,
    Archived,
}

/// What the registry keeps of a paper.
#[derive(Debug)]
pub struct Paper {
    pub owner: Address,
    pub metadata_uri: String,
    pub doi: Option<String>,
    pub token: Option<Address>,
    pub status: PaperStatus,
    pub registered_at: u64,
}

impl Clone for Paper {
    fn clone(&self) -> (p: Self)
        ensures
            p == *self,
    {
        Paper {
            owner: self.owner,
            metadata_uri: self.metadata_uri.clone(),
            doi: match &self.doi {
                Some(d) => Some(d.clone()),
                None => None,
            },
            token: self.token,
            status: self.status,
            registered_at: self.registered_at,
        }
    }
}

/// A paper together with its identifier.
#[derive(Debug)]
pub struct PaperRecord {
    pub id: u32,
    pub data: Paper,
}

/// The identifiers of the papers of `owner` among `papers`, ascending.
pub open spec fn ids_of(papers: Seq<Paper>, owner: Address) -> Seq<u32>
    decreases papers.len(),
{
    if papers.len() == 0 {
        Seq::empty()
    } else if papers.last().owner == owner {
        ids_of(papers.drop_last(), owner).push((papers.len() - 1) as u32)
    } else {
        ids_of(papers.drop_last(), owner)
    }
}

/// The first `count` papers as records.
pub open spec fn records_of(papers: Seq<Paper>, count: int) -> Seq<PaperRecord> {
    Seq::new(count as nat, |i: int| PaperRecord { id: i as u32, data: papers[i] })
}

/// How many records a listing with the limit `limit` returns of `len`
/// papers: all of them where the limit is zero.
pub open spec fn listed_count(len: int, limit: int) -> int {
    if limit == 0 || limit >= len {
        len
    } else {
        limit
    }
}

/// The state of a registry as contracts see it. A paper's identifier is its
/// position in `papers`, so the next identifier is their number.
pub struct RegistryView {
    pub admin: Option<Address>,
    pub papers: Seq<Paper>,
}

impl RegistryView {
    /// The state before anything happened.
    pub open spec fn blank() -> RegistryView {
        RegistryView { admin: None, papers: Seq::empty() }
    }

    /// Every identifier in use is a value of `u32`, and so is the next one.
    pub open spec fn inv(self) -> bool {
        self.papers.len() <= u32::MAX
    }

    /// Why `register_paper` is refused, if it is; the first failing check
    /// decides.
    pub open spec fn register_refusal(
        self,
        authorized: bool,
        metadata_uri: Seq<char>,
    ) -> Option<RegistryError> {
        if !authorized {
            Some(RegistryError::Unauthorized)
        } else if metadata_uri.len() == 0 {
            Some(RegistryError::MetadataRequired)
        } else if self.papers.len() >= u32::MAX {
            Some(RegistryError::IdOverflow)
        } else {
            None
        }
    }

    /// Why `set_token` is refused, if it is; the first failing check decides.
    pub open spec fn set_token_refusal(
        self,
        caller: Address,
        authorized: bool,
        paper_id: u32,
    ) -> Option<RegistryError> {
        if !authorized {
            Some(RegistryError::Unauthorized)
        } else if self.admin is None {
            Some(RegistryError::NotInitialized)
        } else if paper_id >= self.papers.len() {
            Some(RegistryError::PaperNotFound)
        } else if caller != self.admin->0 && caller != self.papers[paper_id as int].owner {
            Some(RegistryError::Unauthorized)
        } else {
            None
        }
    }

    /// Why `update_status` is refused, if it is; the first failing check
    /// decides.
    pub open spec fn update_status_refusal(
        self,
        caller: Address,
        authorized: bool,
        paper_id: u32,
    ) -> Option<RegistryError> {
        if !authorized {
            Some(RegistryError::Unauthorized)
        } else if self.admin is None {
            Some(RegistryError::NotInitialized)
        } else if caller != self.admin->0 {
            Some(RegistryError::Unauthorized)
        } else if paper_id >= self.papers.len() {
            Some(RegistryError::PaperNotFound)
        } else {
            None
        }
    }
}

/// The paper registry.
#[derive(Debug)]
pub struct PapexRegistry {
    admin: Option<Address>,
    papers: Vec<Paper>,
}

impl View for PapexRegistry {
    type V = RegistryView;

    closed spec fn view(&self) -> RegistryView {
        RegistryView { admin: self.admin, papers: self.papers@ }
    }
}

impl PapexRegistry {
    /// A registry without administrator and without papers.
    pub fn new() -> (r: PapexRegistry)
        ensures
            r@ == RegistryView::blank(),
            r@.inv(),
    {
        PapexRegistry { admin: None, papers: Vec::new() }
    }

    /// The registry whose persisted records are the arguments, if the
    /// papers leave room for the next identifier.
    pub fn restore(admin: Option<Address>, papers: Vec<Paper>) -> (r: Option<PapexRegistry>)
        ensures
            match r {
                Some(reg) => reg@ == (RegistryView { admin, papers: papers@ }) && reg@.inv(),
                None => !(RegistryView { admin, papers: papers@ }).inv(),
            },
    {
        if papers.len() > u32::MAX as usize {
            None
        } else {
            Some(PapexRegistry { admin, papers })
        }
    }

    /// The papers, each at the position of its identifier.
    pub fn papers(&self) -> (papers: &Vec<Paper>)
        ensures
            papers@ == self@.papers,
    {
        &self.papers
    }

    /// Names the administrator and starts the registry empty: papers
    /// registered before are dropped and the identifiers start at zero.
    ///
    /// `authorized` says whether `admin` has proved its identity for this call.
    pub fn init(&mut self, admin: Address, authorized: bool) -> (r: Result<(), RegistryError>)
        requires
            old(self)@.inv(),
        ensures
            final(self)@.inv(),
            match r {
                Err(e) => {
                    &&& e == if old(self)@.admin is Some {
                        RegistryError::AlreadyInitialized
                    } else {
                        RegistryError::Unauthorized
                    }
                    &&& old(self)@.admin is Some || !authorized
                    &&& final(self)@ == old(self)@
                },
                Ok(_) => {
                    &&& old(self)@.admin is None
                    &&& authorized
                    &&& final(self)@ == (RegistryView { admin: Some(admin), papers: Seq::empty() })
                },
            },
    {
        if self.admin.is_some() {
            return Err(RegistryError::AlreadyInitialized);
        }
        if !authorized {
            return Err(RegistryError::Unauthorized);
        }
        self.admin = Some(admin);
        self.papers = Vec::new();
        Ok(())
    }

    /// The administrator.
    pub fn admin(&self) -> (r: Result<Address, RegistryError>)
        ensures
            r == match self@.admin {
                Some(a) => Ok::<Address, RegistryError>(a),
                None => Err(RegistryError::NotInitialized),
            },
    {
        match self.admin {
            Some(a) => Ok(a),
            None => Err(RegistryError::NotInitialized),
        }
    }

    /// The identifier that the next paper gets.
    pub fn next_id(&self) -> (id: u32)
        requires
            self@.inv(),
        ensures
            id == self@.papers.len(),
    {
        self.papers.len() as u32
    }

    /// Registers a paper of `caller` at the time `now` and returns its
    /// identifier, the number of papers registered before it.
    ///
    /// `authorized` says whether `caller` has proved its identity for this call.
    pub fn register_paper(
        &mut self,
        caller: Address,
        authorized: bool,
        metadata_uri: String,
        doi: Option<String>,
        now: u64,
    ) -> (r: Result<u32, RegistryError>)
        requires
            old(self)@.inv(),
        ensures
            final(self)@.inv(),
            match r {
                Err(e) => {
                    &&& old(self)@.register_refusal(authorized, metadata_uri@) == Some(e)
                    &&& final(self)@ == old(self)@
                },
                Ok(id) => {
                    &&& old(self)@.register_refusal(authorized, metadata_uri@) is None
                    &&& id == old(self)@.papers.len()
                    &&& final(self)@.admin == old(self)@.admin
                    &&& final(self)@.papers == old(self)@.papers.push(
                        Paper {
                            owner: caller,
                            metadata_uri,
                            doi,
                            token: None,
                            status: PaperStatus::Pending,
                            registered_at: now,
                        },
                    )
                },
            },
    {
        if !authorized {
            return Err(RegistryError::Unauthorized);
        }
        if metadata_uri.as_str().is_empty() {
            return Err(RegistryError::MetadataRequired);
        }
        if self.papers.len() >= u32::MAX as usize {
            return Err(RegistryError::IdOverflow);
        }
        let id: u32 = self.papers.len() as u32;
        self.papers.push(
            Paper {
                owner: caller,
                metadata_uri,
                doi,
                token: None,
                status: PaperStatus::Pending,
                registered_at: now,
            },
        );
        Ok(id)
    }

    /// Attaches the token `token` to a paper and marks it tokenized. The
    /// administrator and the paper's owner may.
    ///
    /// `authorized` says whether `caller` has proved its identity for this call.
    pub fn set_token(
        &mut self,
        caller: Address,
        authorized: bool,
        paper_id: u32,
        token: Address,
    ) -> (r: Result<PaperRecord, RegistryError>)
        requires
            old(self)@.inv(),
        ensures
            final(self)@.inv(),
            match r {
                Err(e) => {
                    &&& old(self)@.set_token_refusal(caller, authorized, paper_id) == Some(e)
                    &&& final(self)@ == old(self)@
                },
                Ok(record) => {
                    &&& old(self)@.set_token_refusal(caller, authorized, paper_id) is None
                    &&& record == (PaperRecord {
                        id: paper_id,
                        data: Paper {
                            token: Some(token),
                            status: PaperStatus::Tokenized,
                            ..old(self)@.papers[paper_id as int]
                        },
                    })
                    &&& final(self)@.admin == old(self)@.admin
                    &&& final(self)@.papers == old(self)@.papers.update(
                        paper_id as int,
                        record.data,
                    )
                },
            },
    {
        if !authorized {
            return Err(RegistryError::Unauthorized);
        }
        let admin: Address = match self.admin {
            Some(a) => a,
            None => {
                return Err(RegistryError::NotInitialized);
            },
        };
        if paper_id as usize >= self.papers.len() {
            return Err(RegistryError::PaperNotFound);
        }
        let mut paper: Paper = self.papers[paper_id as usize].clone();
        if caller != admin && caller != paper.owner {
            return Err(RegistryError::Unauthorized);
        }
        paper.token = Some(token);
        paper.status = PaperStatus::Tokenized;
        self.papers[paper_id as usize] = paper.clone();
        Ok(PaperRecord { id: paper_id, data: paper })
    }

    /// Sets the status of a paper. Only the administrator may.
    ///
    /// `authorized` says whether `caller` has proved its identity for this call.
    pub fn update_status(
        &mut self,
        caller: Address,
        authorized: bool,
        paper_id: u32,
        status: PaperStatus,
    ) -> (r: Result<PaperRecord, RegistryError>)
        requires
            old(self)@.inv(),
        ensures
            final(self)@.inv(),
            match r {
                Err(e) => {
                    &&& old(self)@.update_status_refusal(caller, authorized, paper_id) == Some(e)
                    &&& final(self)@ == old(self)@
                },
                Ok(record) => {
                    &&& old(self)@.update_status_refusal(caller, authorized, paper_id) is None
                    &&& record == (PaperRecord {
                        id: paper_id,
                        data: Paper { status, ..old(self)@.papers[paper_id as int] },
                    })
                    &&& final(self)@.admin == old(self)@.admin
                    &&& final(self)@.papers == old(self)@.papers.update(
                        paper_id as int,
                        record.data,
                    )
                },
            },
    {
        if !authorized {
            return Err(RegistryError::Unauthorized);
        }
        let admin: Address = match self.admin {
            Some(a) => a,
            None => {
                return Err(RegistryError::NotInitialized);
            },
        };
        if caller != admin {
            return Err(RegistryError::Unauthorized);
        }
        if paper_id as usize >= self.papers.len() {
            return Err(RegistryError::PaperNotFound);
        }
        let mut paper: Paper = self.papers[paper_id as usize].clone();
        paper.status = status;
        self.papers[paper_id as usize] = paper.clone();
        Ok(PaperRecord { id: paper_id, data: paper })
    }

    /// The paper with the identifier `paper_id`, if there is one.
    pub fn get_paper(&self, paper_id: u32) -> (r: Option<PaperRecord>)
        ensures
            r == if paper_id < self@.papers.len() {
                Some(PaperRecord { id: paper_id, data: self@.papers[paper_id as int] })
            } else {
                None
            },
    {
        if (paper_id as usize) < self.papers.len() {
            Some(PaperRecord { id: paper_id, data: self.papers[paper_id as usize].clone() })
        } else {
            None
        }
    }

    /// The identifiers of the papers that `owner` registered, ascending.
    pub fn papers_of(&self, owner: Address) -> (ids: Vec<u32>)
        requires
            self@.inv(),
        ensures
            ids@ == ids_of(self@.papers, owner),
    {
        let mut ids: Vec<u32> = Vec::new();
        let mut i: usize = 0;
        while i < self.papers.len()
            invariant
                i <= self.papers.len(),
                self.papers.len() <= u32::MAX,
                ids@ == ids_of(self.papers@.take(i as int), owner),
            decreases self.papers.len() - i,
        {
            proof {
                assert(self.papers@.take(i + 1).drop_last() =~= self.papers@.take(i as int));
            }
            if self.papers[i].owner == owner {
                ids.push(i as u32);
            }
            i += 1;
        }
        proof {
            assert(self.papers@.take(i as int) =~= self.papers@);
        }
        ids
    }

    /// The papers in the order of their identifiers: all of them where
    /// `limit` is zero, else the first `limit`.
    pub fn list_papers(&self, limit: u32) -> (records: Vec<PaperRecord>)
        requires
            self@.inv(),
        ensures
            records@ == records_of(
                self@.papers,
                listed_count(self@.papers.len() as int, limit as int),
            ),
    {
        let mut records: Vec<PaperRecord> = Vec::new();
        let mut i: usize = 0;
        while i < self.papers.len() && (limit == 0 || i < limit as usize)
            invariant
                i <= self.papers.len(),
                self.papers.len() <= u32::MAX,
                limit == 0 || i <= limit,
                records@ == records_of(self.papers@, i as int),
            decreases self.papers.len() - i,
        {
            records.push(PaperRecord { id: i as u32, data: self.papers[i].clone() });
            i += 1;
        }
        records
    }
}

} // verus!
