//! The key material of the admission listener and the store that holds the
//! material in force.

use crate::text::joined;
use std::sync::Arc;
use vstd::prelude::*;

verus! {

/// The one protocol that the listener offers in the handshake.
pub const ALPN_HTTP1: &'static str = "http/1.1";

/// A certificate chain and its private key, both DER encoded.
#[derive(Clone, Debug, PartialEq, Eq)]
pub struct TlsMaterial {
    pub certificate_chain: Vec<Vec<u8>>,
    pub private_key: Vec<u8>,
}

pub struct TlsMaterialView {
    pub certificate_chain: Seq<Seq<u8>>,
    pub private_key: Seq<u8>,
}

impl View for TlsMaterial {
    type V = TlsMaterialView;

    open spec fn view(&self) -> TlsMaterialView {
        TlsMaterialView {
            certificate_chain: self.certificate_chain@.map_values(|cert: Vec<u8>| cert@),
            private_key: self.private_key@,
        }
    }
}

fn copy_bytes(bytes: &Vec<u8>) -> (copy: Vec<u8>)
    ensures
        copy@ == bytes@,
{
    let mut copy: Vec<u8> = Vec::new();
    let mut i: usize = 0;
    while i < bytes.len()
        invariant
            i <= bytes.len(),
            copy@ == bytes@.take(i as int),
        decreases bytes.len() - i,
    {
        copy.push(bytes[i]);
        i += 1;
    }
    copy
}

/// Collects the certificates of a chain from the sections of a PEM file as
/// they were parsed. The chain is all sections in file order; one section
/// that did not parse fails the whole chain, with the cause of the first
/// such section.
pub fn load_certs(sections: &Vec<Result<Vec<u8>, String>>) -> (chain: Result<Vec<Vec<u8>>, String>)
    ensures
        match chain {
            Ok(certs) => {
                &&& certs.len() == sections.len()
                &&& forall|i: int|
                    0 <= i < sections.len() ==> ((#[trigger] sections[i]) matches Ok(der)
                        && certs@[i]@ == der@)
            },
            Err(message) => exists|i: int|
                {
                    &&& 0 <= i < sections.len()
                    &&& (#[trigger] sections[i]) matches Err(cause)
                    &&& message@ == "failed to parse server ca: "@ + cause@
                    &&& forall|j: int| 0 <= j < i ==> (#[trigger] sections[j]) is Ok
                },
        },
{
    let mut certs: Vec<Vec<u8>> = Vec::new();
    let mut k: usize = 0;
    while k < sections.len()
        invariant
            k <= sections.len(),
            certs.len() == k,
            forall|i: int|
                0 <= i < k ==> ((#[trigger] sections[i]) matches Ok(der) && certs@[i]@ == der@),
        decreases sections.len() - k,
    {
        match &sections[k] {
            Ok(der) => {
                certs.push(copy_bytes(der));
            },
            Err(cause) => {
                return Err(joined("failed to parse server ca: ", cause.as_str()));
            },
        }
        k += 1;
    }
    Ok(certs)
}

/// The store: it holds the material in force as one shared snapshot, which
/// a reload replaces whole.
#[derive(Clone, Debug)]
pub struct TlsStore {
    pub material: Arc<TlsMaterial>,
}

impl View for TlsStore {
    type V = TlsMaterialView;

    open spec fn view(&self) -> TlsMaterialView {
        (*self.material)@
    }
}

impl TlsStore {
    pub fn new(material: TlsMaterial) -> (store: TlsStore)
        ensures
            store@ == material@,
    {
        TlsStore { material: Arc::new(material) }
    }

    /// The material in force, shared and not copied. A connection that is
    /// being set up keeps the material it was handed, whatever is loaded later.
    pub fn current(&self) -> (material: Arc<TlsMaterial>)
        ensures
            (*material)@ == self@,
    {
        Arc::clone(&self.material)
    }

    /// Takes the outcome of a reload. Loaded material replaces the snapshot
    /// whole, chain and key together; a failure leaves the snapshot in
    /// force and is handed back to be logged.
    pub fn reload(&mut self, loaded: Result<TlsMaterial, String>) -> (failure: Option<String>)
        ensures
            match loaded {
                Ok(material) => failure.is_none() && final(self)@ == material@,
                Err(cause) => failure matches Some(why) && why@ == cause@ && final(self)@ == old(
                    self,
                )@,
            },
    {
        match loaded {
            Ok(material) => {
                self.material = Arc::new(material);
                None
            },
            Err(cause) => Some(cause),
        }
    }
}

} // verus!
