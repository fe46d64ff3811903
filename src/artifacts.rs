//! Compiled test contracts: an ABI and the bytecode that the artifact gives as hex text.
use vstd::prelude::*;
use crate::codec::copy_bytes;
use crate::crypto::{hex_bytes, hex_decode, is_hex};

verus! {

#[verifier::external_type_specification]
#[verifier::external_body]
pub struct ExContract(ethabi::Contract);

/// A contract ready to deploy: its ABI and its bytecode.
pub struct ContractConstructor {
    pub abi: ethabi::Contract,
    pub code: Vec<u8>,
}

impl ContractConstructor {
    /// From the ABI and the bytecode of a compiler's `.bin` output: hex text throughout.
    pub fn compile_from_source(abi: ethabi::Contract, bin: &[u8]) -> (r: Option<Self>)
        ensures
            r is Some <==> is_hex(bin@),
            r is Some ==> r.unwrap().abi == abi && r.unwrap().code@ == hex_bytes(bin@),
    {
        match hex_decode(bin) {
            None => None,
            Some(code) => Some(ContractConstructor { abi, code }),
        }
    }

    /// From the ABI and the bytecode of an extended JSON artifact: hex text after a two-byte
    /// `0x` prefix.
    pub fn compile_from_extended_json(abi: ethabi::Contract, bytecode: &[u8]) -> (r: Option<Self>)
        ensures
            r is Some <==> bytecode@.len() >= 2 && is_hex(bytecode@.subrange(2, bytecode@.len() as int)),
            r is Some ==> r.unwrap().abi == abi && r.unwrap().code@ == hex_bytes(
                bytecode@.subrange(2, bytecode@.len() as int),
            ),
    {
        if bytecode.len() < 2 {
            return None;
        }
        let digits = copy_bytes(&bytecode[2..bytecode.len()]);
        assert(digits@ =~= bytecode@.subrange(2, bytecode@.len() as int));
        match hex_decode(digits.as_slice()) {
            None => None,
            Some(code) => Some(ContractConstructor { abi, code }),
        }
    }
}

/// The ERC-20 preset contract with minter and pauser roles.
pub struct ERC20Constructor(pub ContractConstructor);

impl ERC20Constructor {
    /// From the compiler's ABI and `.bin` hex output.
    pub fn load(abi: ethabi::Contract, bin: &[u8]) -> (r: Option<Self>)
        ensures
            r is Some <==> is_hex(bin@),
            r is Some ==> r.unwrap().0.abi == abi && r.unwrap().0.code@ == hex_bytes(bin@),
    {
        match ContractConstructor::compile_from_source(abi, bin) {
            None => None,
            Some(c) => Some(ERC20Constructor(c)),
        }
    }
}

/// The factory of self-destructing test contracts.
pub struct SelfDestructFactoryConstructor(pub ContractConstructor);

impl SelfDestructFactoryConstructor {
    /// From the ABI and the `0x`-prefixed bytecode of the factory's artifact.
    pub fn load(abi: ethabi::Contract, bytecode: &[u8]) -> (r: Option<Self>)
        ensures
            r is Some <==> bytecode@.len() >= 2 && is_hex(bytecode@.subrange(2, bytecode@.len() as int)),
            r is Some ==> r.unwrap().0.abi == abi && r.unwrap().0.code@ == hex_bytes(
                bytecode@.subrange(2, bytecode@.len() as int),
            ),
    {
        match ContractConstructor::compile_from_extended_json(abi, bytecode) {
            None => None,
            Some(c) => Some(SelfDestructFactoryConstructor(c)),
        }
    }
}

/// The self-destructing test contract.
pub struct SelfDestructConstructor(pub ContractConstructor);

impl SelfDestructConstructor {
    /// From the ABI and the `0x`-prefixed bytecode of the contract's artifact.
    pub fn load(abi: ethabi::Contract, bytecode: &[u8]) -> (r: Option<Self>)
        ensures
            r is Some <==> bytecode@.len() >= 2 && is_hex(bytecode@.subrange(2, bytecode@.len() as int)),
            r is Some ==> r.unwrap().0.abi == abi && r.unwrap().0.code@ == hex_bytes(
                bytecode@.subrange(2, bytecode@.len() as int),
            ),
    {
        match ContractConstructor::compile_from_extended_json(abi, bytecode) {
            None => None,
            Some(c) => Some(SelfDestructConstructor(c)),
        }
    }
}

} // verus!
