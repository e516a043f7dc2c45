//! The two JSON deployment-descriptor schemas.
//!
//! A dapp deployment descriptor is a JSON object with an optional `address`
//! and an optional `blockHash` field, both hexadecimal strings. A rollups
//! deployment descriptor is a JSON object whose `contracts` object holds up
//! to three named entries — `History`, `Authority`, `InputBox` — each shaped
//! like a dapp descriptor. Reading the raw string fields out of a document is
//! delegated to `serde_json` behind trusted wrappers; turning those strings
//! into typed values is verified here.

use crate::values::spec_opt_address;
use crate::values::spec_opt_hash;
use crate::values::Address;
use serde_json::Value;
use vstd::prelude::*;

verus! {

/// Spec-level counterpart of [`Contract`]: the parsed bytes of the two
/// optional fields.
pub ghost struct ContractV {
    pub address: Option<Seq<u8>>,
    pub block_hash: Option<Seq<u8>>,
}

/// Typed parse of a contract descriptor's two optional raw fields: `None`
/// where a present string is not a well-formed address (first field) or hash
/// (second field).
pub open spec fn spec_contract_entry(
    a: Option<Seq<char>>,
    h: Option<Seq<char>>,
) -> Option<ContractV> {
    match (spec_opt_address(a), spec_opt_hash(h)) {
        (Some(address), Some(block_hash)) => Some(ContractV { address, block_hash }),
        _ => None,
    }
}

/// The two optional raw string fields of a contract descriptor object:
/// `address` and `blockHash`, in that order.
pub type RawFields = (Option<String>, Option<String>);

/// Spec-level counterpart of [`RawFields`].
pub type SpecFields = (Option<Seq<char>>, Option<Seq<char>>);

/// The raw string fields that a dapp deployment document holds, or `None`
/// where the document does not have the dapp descriptor shape.
pub uninterp spec fn dapp_doc_of(s: Seq<char>) -> Option<SpecFields>;

/// The raw string fields of the three contract entries that a rollups
/// deployment document holds (`History`, `Authority`, `InputBox`, in that
/// order; an inner `None` for an absent entry), or `None` where the document
/// does not have the rollups descriptor shape.
pub uninterp spec fn rollups_doc_of(s: Seq<char>) -> Option<Seq<Option<SpecFields>>>;

/// Relies on `serde_json::from_str` and `serde_json::Value`: reads the
/// optional `address` and `blockHash` string fields of a JSON object, and
/// yields `None` where the text is not a JSON object or either field holds a
/// value that is neither a string nor null. The result depends on the text
/// alone.
#[verifier::external_body]
fn extract_dapp(s: &str) -> (r: Option<RawFields>)
    ensures
        r.deep_view() == dapp_doc_of(s@),
{
    let root: Value = serde_json::from_str(s).ok()?;
    if !root.is_object() {
        return None;
    }
    let field = |k: &str| match root.get(k) {
        None | Some(Value::Null) => Some(None),
        Some(Value::String(x)) => Some(Some(x.clone())),
        _ => None,
    };
    Some((field("address")?, field("blockHash")?))
}

/// Relies on `serde_json::from_str` and `serde_json::Value`: reads the
/// `contracts` object and, from each of its `History`, `Authority` and
/// `InputBox` entries in that order, the entry's optional `address` and
/// `blockHash` string fields; yields `None` where the document or any of
/// those places does not have that shape. The result depends on the text
/// alone.
#[verifier::external_body]
fn extract_rollups(s: &str) -> (r: Option<Vec<Option<RawFields>>>)
    ensures
        r.deep_view() == rollups_doc_of(s@),
        r is Some ==> r->0@.len() == 3,
{
    let root: Value = serde_json::from_str(s).ok()?;
    let contracts = root.get("contracts")?.as_object()?;
    let field = |c: &Value, k: &str| match c.get(k) {
        None | Some(Value::Null) => Some(None),
        Some(Value::String(x)) => Some(Some(x.clone())),
        _ => None,
    };
    let entry = |key: &str| match contracts.get(key) {
        None | Some(Value::Null) => Some(None),
        Some(e) if e.is_object() => Some(Some((field(e, "address")?, field(e, "blockHash")?))),
        _ => None,
    };
    Some(vec![entry("History")?, entry("Authority")?, entry("InputBox")?])
}

/// A parsed contract descriptor: the typed values of the optional `address`
/// and `blockHash` fields.
#[derive(Debug, Clone)]
pub struct Contract {
    pub address: Option<Address>,
    pub block_hash: Option<crate::values::Hash>,
}

impl View for Contract {
    type V = ContractV;

    open spec fn view(&self) -> ContractV {
        ContractV {
            address: match self.address {
                Some(a) => Some(a@),
                None => None,
            },
            block_hash: match self.block_hash {
                Some(h) => Some(h@),
                None => None,
            },
        }
    }
}

impl Contract {
    /// Every present value holds its fixed number of bytes.
    pub open spec fn wf(&self) -> bool {
        &&& (self.address is Some ==> self.address->0.wf())
        &&& (self.block_hash is Some ==> self.block_hash->0.wf())
    }
}

/// The typed values of one optional contract entry, or `None` where a present
/// raw string is not a well-formed address or hash.
pub open spec fn spec_entry(e: Option<SpecFields>) -> Option<Option<ContractV>> {
    match e {
        None => Some(None),
        Some(doc) => match spec_contract_entry(doc.0, doc.1) {
            Some(c) => Some(Some(c)),
            None => None,
        },
    }
}

/// The parse of a dapp deployment document: its typed contract descriptor,
/// or `None` where the document is malformed or a present field is not a
/// well-formed address or hash.
pub open spec fn spec_parse_dapp_deployment(s: Seq<char>) -> Option<ContractV> {
    match dapp_doc_of(s) {
        None => None,
        Some(doc) => spec_contract_entry(doc.0, doc.1),
    }
}

/// The three optionally-present named contract entries of a rollups
/// deployment descriptor.
#[derive(Debug, Clone)]
pub struct RollupsContracts {
    pub history: Option<Contract>,
    pub authority: Option<Contract>,
    pub input_box: Option<Contract>,
}

/// Spec-level counterpart of [`RollupsContracts`].
pub ghost struct RollupsContractsV {
    pub history: Option<ContractV>,
    pub authority: Option<ContractV>,
    pub input_box: Option<ContractV>,
}

impl View for RollupsContracts {
    type V = RollupsContractsV;

    open spec fn view(&self) -> RollupsContractsV {
        RollupsContractsV {
            history: match self.history {
                Some(c) => Some(c@),
                None => None,
            },
            authority: match self.authority {
                Some(c) => Some(c@),
                None => None,
            },
            input_box: match self.input_box {
                Some(c) => Some(c@),
                None => None,
            },
        }
    }
}

/// A parsed rollups deployment descriptor.
#[derive(Debug, Clone)]
pub struct RollupsDeployment {
    pub contracts: RollupsContracts,
}

/// Spec-level counterpart of [`RollupsDeployment`].
pub ghost struct RollupsDeploymentV {
    pub contracts: RollupsContractsV,
}

impl View for RollupsDeployment {
    type V = RollupsDeploymentV;

    open spec fn view(&self) -> RollupsDeploymentV {
        RollupsDeploymentV { contracts: self.contracts@ }
    }
}

impl RollupsContracts {
    /// Every present value of every present entry holds its fixed number of
    /// bytes.
    pub open spec fn wf(&self) -> bool {
        &&& (self.history is Some ==> self.history->0.wf())
        &&& (self.authority is Some ==> self.authority->0.wf())
        &&& (self.input_box is Some ==> self.input_box->0.wf())
    }
}

impl RollupsDeployment {
    /// Every present value of every present entry holds its fixed number of
    /// bytes.
    pub open spec fn wf(&self) -> bool {
        self.contracts.wf()
    }
}

/// The parse of a rollups deployment document: its three typed contract
/// entries, or `None` where the document is malformed or a present field of
/// an entry is not a well-formed address or hash.
pub open spec fn spec_parse_rollups_deployment(s: Seq<char>) -> Option<RollupsContractsV> {
    match rollups_doc_of(s) {
        None => None,
        Some(es) => {
            if es.len() == 3 {
                match (spec_entry(es[0]), spec_entry(es[1]), spec_entry(es[2])) {
                    (Some(history), Some(authority), Some(input_box)) => Some(
                        RollupsContractsV { history, authority, input_box },
                    ),
                    _ => None,
                }
            } else {
                None
            }
        },
    }
}

/// Turns the raw string fields of one contract descriptor into typed values.
fn parse_contract(doc: RawFields) -> (r: Option<Contract>)
    ensures
        r is Some <==> spec_contract_entry(doc.deep_view().0, doc.deep_view().1) is Some,
        r is Some ==> Some(r->0@) == spec_contract_entry(doc.deep_view().0, doc.deep_view().1),
        r is Some ==> r->0.wf(),
{
    let address = match doc.0 {
        None => None,
        Some(a) => match Address::parse(a.as_str()) {
            Some(x) => Some(x),
            None => {
                return None;
            },
        },
    };
    let block_hash = match doc.1 {
        None => None,
        Some(h) => match crate::values::Hash::parse(h.as_str()) {
            Some(x) => Some(x),
            None => {
                return None;
            },
        },
    };
    Some(Contract { address, block_hash })
}

/// Parses a dapp deployment document: reads the descriptor's raw fields and
/// turns each present one into its typed value. `None` where the document is
/// malformed or a present field is not a well-formed address or hash.
pub fn parse_dapp_deployment(s: &str) -> (r: Option<Contract>)
    ensures
        r is Some <==> spec_parse_dapp_deployment(s@) is Some,
        r is Some ==> Some(r->0@) == spec_parse_dapp_deployment(s@),
        r is Some ==> r->0.wf(),
{
    let doc = match extract_dapp(s) {
        None => {
            return None;
        },
        Some(d) => d,
    };
    parse_contract(doc)
}

/// Turns one optional raw contract entry into its typed values.
fn parse_entry(e: Option<RawFields>) -> (r: Option<Option<Contract>>)
    ensures
        r is Some <==> spec_entry(e.deep_view()) is Some,
        r is Some ==> opt_contract_view(r->0) == spec_entry(e.deep_view())->0,
        r is Some ==> entry_wf(r->0),
{
    match e {
        None => Some(None),
        Some(doc) => match parse_contract(doc) {
            Some(c) => Some(Some(c)),
            None => None,
        },
    }
}

/// Spec view of an optional parsed contract.
pub open spec fn opt_contract_view(o: Option<Contract>) -> Option<ContractV> {
    match o {
        Some(c) => Some(c@),
        None => None,
    }
}

/// A present parsed contract is well formed.
pub open spec fn entry_wf(o: Option<Contract>) -> bool {
    o is Some ==> o->0.wf()
}

/// Parses a rollups deployment document: reads the raw fields of the three
/// named contract entries and turns each present one into its typed values.
/// `None` where the document is malformed or a present field of an entry is
/// not a well-formed address or hash.
pub fn parse_rollups_deployment(s: &str) -> (r: Option<RollupsDeployment>)
    ensures
        r is Some <==> spec_parse_rollups_deployment(s@) is Some,
        r is Some ==> Some(r->0.contracts@) == spec_parse_rollups_deployment(s@),
        r is Some ==> r->0.wf(),
{
    let mut entries = match extract_rollups(s) {
        None => {
            return None;
        },
        Some(v) => v,
    };
    let raw_input_box = entries.pop().unwrap();
    let raw_authority = entries.pop().unwrap();
    let raw_history = entries.pop().unwrap();
    let history = match parse_entry(raw_history) {
        None => {
            return None;
        },
        Some(c) => c,
    };
    let authority = match parse_entry(raw_authority) {
        None => {
            return None;
        },
        Some(c) => c,
    };
    let input_box = match parse_entry(raw_input_box) {
        None => {
            return None;
        },
        Some(c) => c,
    };
    Some(RollupsDeployment { contracts: RollupsContracts { history, authority, input_box } })
}

} // verus!
