//! Transaction records.

use vstd::prelude::*;
use vstd::string::*;

verus! {

/// An amount paid to an address.
pub struct TxOut {
    pub address: String,
    pub amount: u64,
}

/// A reference to an output of an earlier transaction.
#[allow(non_snake_case)]
pub struct TxIn {
    pub txId: String,
    pub txIndex: u32,
    pub amount: u64,
}

/// A transfer from inputs to outputs.
#[allow(non_snake_case)]
pub struct Transaction {
    pub id: String,
    pub txIns: Vec<TxIn>,
    pub txOuts: Vec<TxOut>,
}

impl TxOut {
    /// An output that pays `amount` to `address`.
    pub fn new(address: &str, amount: u64) -> (out: TxOut)
        ensures
            out.address@ == address@,
            out.amount == amount,
    {
        TxOut { address: String::from_str(address), amount }
    }
}

} // verus!
