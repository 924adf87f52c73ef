//! The write path (issue a fresh code and build its record) and the read path
//! (pre-filter a lookup key), with the mapping of store results to outcomes.
//!
//! Seed convention: the counter starts at `count + 1`, where `count` is the
//! number of records in the store. A store filled from an empty start holds
//! the codes of sequence numbers `1..=count`, so the next code is new.
//!
//! A sequence number is consumed before the store write and never handed
//! back: when the write fails it is burned, and the next generation uses the
//! number after it.

use vstd::prelude::*;
use vstd::string::StrSliceExecFns;
use crate::counter::Counter;
use crate::encoder::{encode, to_base62, lemma_encode_injective};
use crate::records::{
    CODE_LENGTH,
    DataDocument,
    GenerateCode,
    GetByCode,
    Lookup,
    ServiceError,
    StoreFailure,
    Timestamp,
};

verus! {

/// Relies on chrono::Utc::now: the current time from the system clock, split
/// into seconds and nanoseconds. Nothing is promised of the value.
#[verifier::external_body]
fn now() -> (r: Timestamp) {
    let t = chrono::Utc::now();
    Timestamp { secs: t.timestamp(), nanos: t.timestamp_subsec_nanos() }
}

/// Issues the codes of new records; owns the sequence counter.
pub struct CodeGenerator {
    counter: Counter,
}

impl View for CodeGenerator {
    type V = nat;

    /// The sequence number that the next generation consumes.
    closed spec fn view(&self) -> nat {
        self.counter@
    }
}

impl CodeGenerator {
    /// A generator whose first sequence number is `seed`.
    pub fn with_seed(seed: u64) -> (r: CodeGenerator)
        ensures
            r@ == seed as nat,
    {
        CodeGenerator { counter: Counter::initialize(seed) }
    }

    /// Seeds the generator from the store's record count, read once at
    /// startup: the first sequence number is `count + 1`. A count that could
    /// not be read, or that leaves no number above it, is a startup failure.
    pub fn start(count: Result<u64, StoreFailure>) -> (r: Result<CodeGenerator, ServiceError>)
        ensures
            match count {
                Ok(c) => if c < u64::MAX {
                    r is Ok && r->Ok_0@ == c + 1
                } else {
                    r == Err::<CodeGenerator, ServiceError>(ServiceError::StartupFailure)
                },
                Err(_) => r == Err::<CodeGenerator, ServiceError>(ServiceError::StartupFailure),
            },
    {
        match count {
            Ok(c) => {
                if c < u64::MAX {
                    Ok(CodeGenerator::with_seed(c + 1))
                } else {
                    Err(ServiceError::StartupFailure)
                }
            },
            Err(_) => Err(ServiceError::StartupFailure),
        }
    }

    /// The sequence number that the next generation consumes.
    pub fn next_sequence(&self) -> (r: u64)
        ensures
            r as nat == self@,
    {
        self.counter.peek()
    }

    /// Consumes the next sequence number and builds the record of `request`
    /// under its code, created at `created_at`. Fails, consuming nothing,
    /// only when the counter is exhausted.
    pub fn prepare(&mut self, request: GenerateCode, created_at: Timestamp) -> (r: Result<
        DataDocument,
        ServiceError,
    >)
        ensures
            old(self)@ < u64::MAX ==> {
                &&& r is Ok
                &&& r->Ok_0.code@ == encode(old(self)@)
                &&& r->Ok_0.data@ == request.data@
                &&& r->Ok_0.created_at == created_at
                &&& final(self)@ == old(self)@ + 1
            },
            old(self)@ == u64::MAX ==> {
                &&& r == Err::<DataDocument, ServiceError>(ServiceError::Exhausted)
                &&& final(self)@ == old(self)@
            },
    {
        if self.counter.is_exhausted() {
            return Err(ServiceError::Exhausted);
        }
        let sequence = self.counter.next();
        let code = to_base62(sequence);
        Ok(DataDocument { data: request.data, code, created_at })
    }

    /// Consumes the next sequence number and builds the record of `request`
    /// under its code, stamped with the current time. Fails, consuming
    /// nothing, only when the counter is exhausted.
    pub fn generate(&mut self, request: GenerateCode) -> (r: Result<DataDocument, ServiceError>)
        ensures
            old(self)@ < u64::MAX ==> {
                &&& r is Ok
                &&& r->Ok_0.code@ == encode(old(self)@)
                &&& r->Ok_0.data@ == request.data@
                &&& final(self)@ == old(self)@ + 1
            },
            old(self)@ == u64::MAX ==> {
                &&& r == Err::<DataDocument, ServiceError>(ServiceError::Exhausted)
                &&& final(self)@ == old(self)@
            },
    {
        let created_at = now();
        self.prepare(request, created_at)
    }
}

/// The outcome of a generation once the store write has answered: the record
/// when it was stored, a storage failure otherwise. The sequence number stays
/// consumed either way.
pub fn generate_outcome(record: DataDocument, stored: Result<(), StoreFailure>) -> (r: Result<
    DataDocument,
    ServiceError,
>)
    ensures
        stored is Ok ==> r == Ok::<DataDocument, ServiceError>(record),
        stored is Err ==> r == Err::<DataDocument, ServiceError>(ServiceError::StorageFailure),
{
    match stored {
        Ok(()) => Ok(record),
        Err(_) => Err(ServiceError::StorageFailure),
    }
}

/// The shape check made before a lookup reaches the store: the key must have
/// exactly `CODE_LENGTH` characters.
pub fn validate_code(query: &GetByCode) -> (r: Result<(), ServiceError>)
    ensures
        query.code@.len() == CODE_LENGTH ==> r == Ok::<(), ServiceError>(()),
        query.code@.len() != CODE_LENGTH ==> r == Err::<(), ServiceError>(ServiceError::Validation),
{
    if query.code.as_str().unicode_len() == CODE_LENGTH {
        Ok(())
    } else {
        Err(ServiceError::Validation)
    }
}

/// The outcome of a lookup once the store has answered: the record, not
/// found, or a storage failure; the two last are kept apart.
pub fn lookup_outcome(found: Result<Option<DataDocument>, StoreFailure>) -> (r: Result<
    Lookup,
    ServiceError,
>)
    ensures
        match found {
            Ok(Some(doc)) => r == Ok::<Lookup, ServiceError>(Lookup::Found(doc)),
            Ok(None) => r == Ok::<Lookup, ServiceError>(Lookup::NotFound),
            Err(_) => r == Err::<Lookup, ServiceError>(ServiceError::StorageFailure),
        },
{
    match found {
        Ok(Some(doc)) => Ok(Lookup::Found(doc)),
        Ok(None) => Ok(Lookup::NotFound),
        Err(_) => Err(ServiceError::StorageFailure),
    }
}

/// After a restart on a store of `count` records, which hold the codes of
/// sequence numbers `1..=count`, the first code issued differs from each of
/// them.
pub proof fn lemma_restart_is_fresh(count: nat, k: nat)
    requires
        1 <= k <= count,
    ensures
        encode(count + 1) != encode(k),
{
    lemma_encode_injective(k, count + 1);
}
} // verus!
