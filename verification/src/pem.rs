//! PEM-armored certificate chains and their DER contents.

use crate::bytes::push_all;
use crate::error::{result_view, PemFault, QuoteError, QuoteErrorView};
use vstd::prelude::*;
use x509_parser::error::PEMError;
use x509_parser::pem::Pem;

verus! {

/// One PEM block: the label of its armor lines and the bytes that its
/// base64 text decodes to.
#[derive(Debug, PartialEq, Eq)]
pub struct PemBlock {
    pub label: String,
    pub contents: Vec<u8>,
}

/// The content of a [`PemBlock`].
pub struct PemBlockView {
    pub label: Seq<char>,
    pub contents: Seq<u8>,
}

impl View for PemBlock {
    type V = PemBlockView;

    open spec fn view(&self) -> PemBlockView {
        PemBlockView { label: self.label@, contents: self.contents@ }
    }
}

/// The content of one entry of a PEM buffer: a block, or the reason why a
/// block that starts there could not be read.
pub open spec fn entry_view(entry: Result<PemBlock, PemFault>) -> Result<PemBlockView, PemFault> {
    match entry {
        Ok(block) => Ok(block@),
        Err(fault) => Err(fault),
    }
}

/// The contents of a list of entries, in order.
pub open spec fn entries_view(entries: Seq<Result<PemBlock, PemFault>>) -> Seq<
    Result<PemBlockView, PemFault>,
> {
    entries.map_values(|entry: Result<PemBlock, PemFault>| entry_view(entry))
}

/// The entries that `x509_parser` finds in a buffer, in the order in which
/// its iterator yields them. Text outside the armored blocks is skipped.
pub uninterp spec fn pem_entries(buffer: Seq<u8>) -> Seq<Result<PemBlockView, PemFault>>;

/// Runs `x509_parser::pem::Pem::iter_from_buffer` over `buffer` to its end
/// and hands out every item it yields, each block and each error changed
/// into the library's own type. Nothing is proved of the parser: the result
/// is only given the name `pem_entries(buffer@)`.
#[verifier::external_body]
fn read_pem_entries(buffer: &[u8]) -> (entries: Vec<Result<PemBlock, PemFault>>)
    ensures
        entries_view(entries@) == pem_entries(buffer@),
{
    Pem::iter_from_buffer(buffer).map(
        |entry| match entry {
            Ok(pem) => Ok(PemBlock { label: pem.label, contents: pem.contents }),
            Err(PEMError::Base64DecodeError) => Err(PemFault::Base64Decode),
            Err(PEMError::IncompletePEM) => Err(PemFault::Incomplete),
            Err(PEMError::InvalidHeader) => Err(PemFault::InvalidHeader),
            Err(PEMError::MissingHeader) => Err(PemFault::MissingHeader),
            Err(PEMError::IOError(_)) => Err(PemFault::Io),
        },
    ).collect()
}

/// The label that every block of a certificate chain must carry.
pub open spec fn certificate_label() -> Seq<char> {
    "CERTIFICATE"@
}

/// The DER bytes of a certificate chain given as PEM entries: the contents
/// of the blocks, one after the other. The first entry that is a fault, or
/// a block with another label than `CERTIFICATE`, makes the whole chain fail.
pub open spec fn der_chain(entries: Seq<Result<PemBlockView, PemFault>>) -> Result<
    Seq<u8>,
    QuoteErrorView,
>
    decreases entries.len(),
{
    if entries.len() == 0 {
        Ok(Seq::empty())
    } else {
        match entries[0] {
            Err(fault) => Err(QuoteErrorView::InvalidPem(fault)),
            Ok(block) => if block.label != certificate_label() {
                Err(QuoteErrorView::UnexpectedPemLabel(block.label))
            } else {
                match der_chain(entries.skip(1)) {
                    Ok(rest) => Ok(block.contents + rest),
                    Err(e) => Err(e),
                }
            },
        }
    }
}

/// What is left to compute of `der_chain` once a prefix of the entries has
/// given the bytes `done`.
pub open spec fn der_chain_from(done: Seq<u8>, entries: Seq<Result<PemBlockView, PemFault>>)
    -> Result<Seq<u8>, QuoteErrorView> {
    match der_chain(entries) {
        Ok(rest) => Ok(done + rest),
        Err(e) => Err(e),
    }
}

/// Joins the DER contents of PEM entries into one chain.
/// Entries are taken in order and the first that is not a readable block
/// labelled `CERTIFICATE` decides the error. No entry gives an empty chain.
pub fn der_from_entries(entries: &[Result<PemBlock, PemFault>]) -> (r: Result<Vec<u8>, QuoteError>)
    ensures
        result_view(r) == der_chain(entries_view(entries@)),
{
    let ghost all = entries_view(entries@);
    let expected_label = "CERTIFICATE".to_owned();
    let mut der: Vec<u8> = Vec::new();
    let mut i: usize = 0;
    assert(all.skip(0) =~= all);
    assert(der@ + der_chain(all)->Ok_0 =~= der_chain(all)->Ok_0);
    while i < entries.len()
        invariant
            i <= entries.len(),
            all == entries_view(entries@),
            expected_label@ == certificate_label(),
            der_chain(all) == der_chain_from(der@, all.skip(i as int)),
        decreases entries.len() - i,
    {
        let ghost tail = all.skip(i as int);
        assert(tail[0] == entry_view(entries@[i as int]));
        assert(tail.skip(1) =~= all.skip(i + 1));
        match &entries[i] {
            Err(fault) => {
                return Err(QuoteError::InvalidPem(*fault));
            },
            Ok(block) => {
                if block.label != expected_label {
                    return Err(QuoteError::UnexpectedPemLabel(block.label.clone()));
                }
                let ghost before = der@;
                push_all(&mut der, block.contents.as_slice());
                proof {
                    if der_chain(tail.skip(1)) is Ok {
                        let rest = der_chain(tail.skip(1))->Ok_0;
                        assert(before + (block.contents@ + rest) =~= der@ + rest);
                    }
                }
            },
        }
        i += 1;
    }
    assert(der@ + Seq::<u8>::empty() =~= der@);
    Ok(der)
}

/// Why a buffer does not hold exactly one PEM block.
#[derive(Clone, Copy, Debug, PartialEq, Eq)]
pub enum SinglePemError {
    /// The buffer holds no PEM block.
    Empty,
    /// The first PEM block could not be read.
    Invalid(PemFault),
    /// Something follows the first PEM block: another block, or one that
    /// could not be read.
    MoreThanOne,
}

/// The contents of the one block among the entries. The first entry must
/// be a block, whatever its label, and nothing may follow it.
pub open spec fn single_block(entries: Seq<Result<PemBlockView, PemFault>>) -> Result<
    Seq<u8>,
    SinglePemError,
> {
    if entries.len() == 0 {
        Err(SinglePemError::Empty)
    } else {
        match entries[0] {
            Err(fault) => Err(SinglePemError::Invalid(fault)),
            Ok(block) => if entries.len() > 1 {
                Err(SinglePemError::MoreThanOne)
            } else {
                Ok(block.contents)
            },
        }
    }
}

/// Picks the contents of the one block among the entries.
pub fn single_block_contents(entries: &[Result<PemBlock, PemFault>]) -> (r: Result<
    Vec<u8>,
    SinglePemError,
>)
    ensures
        match single_block(entries_view(entries@)) {
            Ok(contents) => r matches Ok(v) && v@ == contents,
            Err(e) => r == Err::<Vec<u8>, SinglePemError>(e),
        },
{
    if entries.len() == 0 {
        return Err(SinglePemError::Empty);
    }
    assert(entries_view(entries@)[0] == entry_view(entries@[0]));
    match &entries[0] {
        Err(fault) => Err(SinglePemError::Invalid(*fault)),
        Ok(block) => {
            if entries.len() > 1 {
                Err(SinglePemError::MoreThanOne)
            } else {
                let mut contents: Vec<u8> = Vec::new();
                push_all(&mut contents, block.contents.as_slice());
                assert(contents@ =~= block.contents@);
                Ok(contents)
            }
        },
    }
}

/// Reads the one PEM block of `pem` and hands out its DER contents.
/// The blocks are those that `x509_parser` finds; what becomes of them is
/// what [`single_block_contents`] says.
pub fn single_pem_to_der(pem: &[u8]) -> (r: Result<Vec<u8>, SinglePemError>)
    ensures
        match single_block(pem_entries(pem@)) {
            Ok(contents) => r matches Ok(v) && v@ == contents,
            Err(e) => r == Err::<Vec<u8>, SinglePemError>(e),
        },
{
    single_block_contents(read_pem_entries(pem).as_slice())
}

/// Reads the PEM blocks of `pem` and joins their DER contents.
/// The blocks are those that `x509_parser` finds; what becomes of them is
/// what [`der_from_entries`] says.
pub fn pem_chain_to_der(pem: &[u8]) -> (r: Result<Vec<u8>, QuoteError>)
    ensures
        result_view(r) == der_chain(pem_entries(pem@)),
{
    der_from_entries(read_pem_entries(pem).as_slice())
}

} // verus!
