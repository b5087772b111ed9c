//! Key files and their storage.  A key file is an opaque JSON document whose
//! schema belongs to the external key-file format; this layer only decodes
//! the document and moves it into storage.

use vstd::prelude::*;

use crate::errors::Error;

verus! {

#[verifier::external_type_specification]
#[verifier::external_body]
pub struct ExValue(serde_json::Value);

/// Whether a document is well-formed JSON, as `serde_json` decides it; the
/// verdict is a function of the text alone.
pub uninterp spec fn json_parses(s: Seq<char>) -> bool;

/// Relies on `serde_json::from_str::<Value>`: parsing is deterministic in
/// the document text, succeeding exactly on well-formed JSON.
#[verifier::external_body]
fn json_parse(s: &str) -> (r: Option<serde_json::Value>)
    ensures
        r is Some <==> json_parses(s@),
{
    serde_json::from_str::<serde_json::Value>(s).ok()
}

/// An encrypted key file, decoded from a JSON document.  The structure is
/// opaque to this layer; ownership moves to storage on import.
#[derive(Debug)]
pub struct KeyFile {
    document: serde_json::Value,
}

impl KeyFile {
    /// Decode a key file from the full UTF-8 contents of its document;
    /// exactly the well-formed JSON documents decode.
    pub fn decode(json: String) -> (r: Result<KeyFile, Error>)
        ensures
            r is Ok <==> json_parses(json@),
            r matches Err(e) ==> e == Error::MalformedKeyfile,
    {
        match json_parse(json.as_str()) {
            Some(v) => Ok(KeyFile { document: v }),
            None => Err(Error::MalformedKeyfile),
        }
    }
}

/// The key-file store this layer hands imported key files to, modelled as
/// the sequence of key files put into it, in order.
pub struct KeyfileStorage {
    items: Vec<KeyFile>,
}

impl View for KeyfileStorage {
    type V = Seq<KeyFile>;

    closed spec fn view(&self) -> Seq<KeyFile> {
        self.items@
    }
}

impl KeyfileStorage {
    /// An empty store.
    pub fn new() -> (r: KeyfileStorage)
        ensures
            r@ =~= Seq::<KeyFile>::empty(),
    {
        KeyfileStorage { items: Vec::new() }
    }

    /// Take ownership of one key file.  Appends it to the store and never
    /// fails; the `Result` mirrors the storage collaborator's interface.
    pub fn put(&mut self, kf: KeyFile) -> (r: Result<(), Error>)
        ensures
            r is Ok,
            final(self)@ =~= old(self)@.push(kf),
    {
        self.items.push(kf);
        Ok(())
    }

    /// How many key files have been put.
    pub fn len(&self) -> (n: usize)
        ensures
            n == self@.len(),
    {
        self.items.len()
    }
}

} // verus!
