//! The block tables: the last block on its own, and the latest blocks of
//! a list, newest first.

use vstd::prelude::*;
use crate::ethereum::{
    amount_to_string, block_number_to_string, format_units, hash_to_string, short_hex,
    spec_format_units, Amount, Hash32,
};
use crate::text::{decimal, truncated, usize_to_string};

verus! {

/// What the tables read of a block (`ethers::types::Block<H256>`).
#[derive(Clone, Debug)]
pub struct BlockSummary {
    pub number: Option<u64>,
    pub hash: Option<Hash32>,
    pub base_fee_per_gas: Option<Amount>,
    pub gas_used: Amount,
    /// The length of the block's list of transaction hashes.
    pub transaction_count: usize,
    pub size: Option<Amount>,
}

/// The cells shown for one block.
#[derive(Clone, Debug)]
pub struct BlockRow {
    /// The key of the row in the list: the block hash as displayed.
    pub key: String,
    /// The block's page on etherscan.
    pub link: String,
    pub number: String,
    pub hash: String,
    /// The base fee in gwei, cut to three characters as `{:.3}` cuts a string.
    pub base_fee: String,
    pub gas_used: String,
    pub transactions: String,
    pub size: String,
}

/// The properties of the table of previous blocks.
#[derive(Clone, Debug)]
pub struct HistoryBlocksProps {
    pub blocks: Vec<BlockSummary>,
}

/// The properties of the table of the last block.
#[derive(Clone, Debug)]
pub struct LastBlockProps {
    pub last_block: BlockSummary,
}

/// The number of previous blocks that the table shows.
pub const SHOWN_BLOCKS: usize = 6;

/// A block has every value that its row unwraps.
pub open spec fn displayable(b: BlockSummary) -> bool {
    &&& b.number is Some
    &&& b.hash is Some
    &&& b.base_fee_per_gas is Some
    &&& b.size is Some
}

/// The base fee cell: the fee formatted in gwei (9 decimals), cut to its
/// first three characters, then ` gwei`.
pub open spec fn base_fee_text(fee: nat) -> Seq<char> {
    truncated(spec_format_units(fee, 9), 3) + " gwei"@
}

/// The row of a displayable block, cell by cell.
pub open spec fn row_of(r: BlockRow, b: BlockSummary) -> bool {
    &&& r.key@ == short_hex(b.hash->0@)
    &&& r.link@ == "https://etherscan.io/block/"@ + decimal(b.number->0 as nat)
    &&& r.number@ == decimal(b.number->0 as nat)
    &&& r.hash@ == short_hex(b.hash->0@)
    &&& r.base_fee@ == base_fee_text(b.base_fee_per_gas->0@)
    &&& r.gas_used@ == decimal(b.gas_used@)
    &&& r.transactions@ == decimal(b.transaction_count as nat)
    &&& r.size@ == decimal(b.size->0@) + " bytes"@
}

/// The first `n` characters of `s`, or all of it where it is shorter.
fn first_chars(s: &String, n: usize) -> (res: String)
    ensures
        res@ == truncated(s@, n as nat),
{
    let len = s.as_str().unicode_len();
    let k = if len <= n { len } else { n };
    let part = s.as_str().substring_char(0, k);
    let res = String::from_str(part);
    assert(s@.subrange(0, len as int) =~= s@);
    res
}

/// The cells of one block.
pub fn block_row(b: &BlockSummary) -> (r: BlockRow)
    requires
        displayable(*b),
    ensures
        row_of(r, *b),
{
    let hash = b.hash.unwrap();
    let number = b.number.unwrap();
    let fee = b.base_fee_per_gas.unwrap();
    let size = b.size.unwrap();

    let key = hash_to_string(&hash);
    let number_text = block_number_to_string(number);
    let mut link = String::from_str("https://etherscan.io/block/");
    link.append(number_text.as_str());

    let gwei = format_units(&fee, 9).unwrap();
    let mut base_fee = first_chars(&gwei, 3);
    base_fee.append(" gwei");

    let mut size_text = amount_to_string(&size);
    size_text.append(" bytes");

    BlockRow {
        key,
        link,
        number: number_text,
        hash: hash_to_string(&hash),
        base_fee,
        gas_used: amount_to_string(&b.gas_used),
        transactions: usize_to_string(b.transaction_count),
        size: size_text,
    }
}

/// The table of the last block.
pub fn table_block(props: &LastBlockProps) -> (r: BlockRow)
    requires
        displayable(props.last_block),
    ensures
        row_of(r, props.last_block),
{
    block_row(&props.last_block)
}

/// The number of rows that the table of previous blocks shows for `n`
/// blocks.
pub open spec fn shown_rows(n: nat) -> nat {
    if n < 6 {
        n
    } else {
        6
    }
}

/// The rows of the table of previous blocks: the rows of the newest
/// blocks, newest first, six at most.
pub open spec fn previous_rows(rows: Seq<BlockRow>, blocks: Seq<BlockSummary>) -> bool {
    &&& rows.len() == shown_rows(blocks.len())
    &&& forall|i: int| 0 <= i < rows.len() ==> row_of(#[trigger] rows[i], blocks[blocks.len() - 1 - i])
}

/// The table of previous blocks: the list reversed, so that the newest
/// (last) block comes first, cut to six rows.
pub fn prevs_table(props: &HistoryBlocksProps) -> (rows: Vec<BlockRow>)
    requires
        forall|i: int|
            0 <= i < props.blocks.len() && props.blocks.len() - i <= 6 ==> displayable(
                #[trigger] props.blocks[i],
            ),
    ensures
        previous_rows(rows@, props.blocks@),
{
    let blocks = &props.blocks;
    let n = blocks.len();
    let mut rows: Vec<BlockRow> = Vec::new();
    let mut i: usize = 0;
    while i < n && i < SHOWN_BLOCKS
        invariant
            n == blocks.len(),
            i <= n,
            i <= 6,
            rows.len() == i,
            forall|k: int|
                0 <= k < n && n - k <= 6 ==> displayable(#[trigger] blocks[k]),
            forall|k: int| 0 <= k < i ==> row_of(#[trigger] rows[k], blocks[n - 1 - k]),
        decreases n - i,
    {
        let row = block_row(&blocks[n - 1 - i]);
        rows.push(row);
        i = i + 1;
    }
    rows
}

} // verus!
