//! Properties of the explorer stated apart from the relations that the
//! operations' contracts are written in: what a message leaves for the
//! next message and for the display, what a chart record says of its
//! transfer, and what a table row shows of its block.

use vstd::prelude::*;
use crate::blocks::{displayable, previous_rows, row_of, BlockRow, BlockSummary};
use crate::charts::{
    info_of, lemma_distinct, all_froms, all_tos, all_tokens, distinct, sank_of, texts, tick_of,
    token_views, Information, Sank, Tick, TokenTransfer,
};
use crate::ethereum::{short_hex, spec_format_units, spec_parse_address, Address};
use crate::history::{
    can_update, is_target_of, plot_of, search_is_invalid, updated, view_of, Command, ERC20History,
    ERC20HistoryMsg, HistoryView, SearchTarget,
};
use crate::text::{decimal, has_suffix, lowercase, spec_parse_i32, truncated};

verus! {

/// The address that `SetAddress` accepts is the one whose transfers
/// `FetchERC20Transactions` then asks etherscan for.
pub proof fn fetch_uses_accepted_address(
    s0: ERC20History,
    a: Address,
    s1: ERC20History,
    r1: bool,
    c1: Seq<Command>,
    s2: ERC20History,
    r2: bool,
    c2: Seq<Command>,
)
    requires
        s0.etherscan_ready,
        updated(s0, ERC20HistoryMsg::SetAddress(a), s1, r1, c1),
        updated(s1, ERC20HistoryMsg::FetchERC20Transactions, s2, r2, c2),
    ensures
        c2 == seq![Command::FetchTransfers(a)],
{
    assert(c2 =~= seq![Command::FetchTransfers(a)]);
}

/// An error that `SetError` records is what the panel then shows, and the
/// panel is not redrawn for it.
pub proof fn recorded_error_is_shown(
    s0: ERC20History,
    e: String,
    s1: ERC20History,
    r: bool,
    c: Seq<Command>,
    v: HistoryView,
)
    requires
        updated(s0, ERC20HistoryMsg::SetError(e), s1, r, c),
        view_of(s1, v),
    ensures
        !r,
        v.error_line matches Some(line) && line@ == "Error: "@ + e@,
{
}

/// Accepting an address shows it and clears any error shown before.
pub proof fn accepted_address_is_shown(
    s0: ERC20History,
    a: Address,
    s1: ERC20History,
    r: bool,
    c: Seq<Command>,
    v: HistoryView,
)
    requires
        updated(s0, ERC20HistoryMsg::SetAddress(a), s1, r, c),
        view_of(s1, v),
    ensures
        r,
        v.address_line matches Some(line) && line@ == "Address accepted "@ + short_hex(a@),
        v.error_line is None,
{
}

/// A search text that designates nothing forgets the address accepted
/// before, so that it is no longer shown, and sends the error
/// `Address wrong!`.
pub proof fn wrong_search_forgets_address(
    s0: ERC20History,
    input: String,
    s1: ERC20History,
    r: bool,
    c: Seq<Command>,
    v: HistoryView,
)
    requires
        search_is_invalid(lowercase(input@)),
        updated(s0, ERC20HistoryMsg::FetchAddress(input), s1, r, c),
        view_of(s1, v),
    ensures
        r,
        s1.address is None,
        s1.error == s0.error,
        s1.ens_name == s0.ens_name,
        s1.history == s0.history,
        s1.ws_connected == s0.ws_connected,
        v.address_line is None,
        c.len() == 1,
        c[0] matches Command::Send(ERC20HistoryMsg::SetError(e)) && e@ == "Address wrong!"@,
{
}

/// Loaded transfers replace the history, and the panel then shows their
/// number, or no count when there are none.
pub proof fn loaded_transfers_are_counted(
    s0: ERC20History,
    txs: Vec<TokenTransfer>,
    s1: ERC20History,
    r: bool,
    c: Seq<Command>,
    v: HistoryView,
)
    requires
        updated(s0, ERC20HistoryMsg::SetResult(txs), s1, r, c),
        view_of(s1, v),
    ensures
        r,
        s1.history == txs,
        s1.address == s0.address,
        s1.error == s0.error,
        s1.ens_name == s0.ens_name,
        txs.len() > 0 ==> (v.count_line matches Some(line) && line@ == decimal(txs.len() as nat)
            + " ERC20 transactions"@),
        txs.len() == 0 ==> v.count_line is None,
{
}

/// The messages that only record a value (an address, a name, an error,
/// the provider) record exactly that value, leave the loaded transfers and
/// the other values as they were, and ask for nothing; only an address or a
/// name is redrawn, and an accepted address clears the error.
pub proof fn recording_keeps_history(
    s0: ERC20History,
    msg: ERC20HistoryMsg,
    s1: ERC20History,
    r: bool,
    c: Seq<Command>,
)
    requires
        msg is SetAddress || msg is SetEnsName || msg is SetError || msg is SetWsClient,
        updated(s0, msg, s1, r, c),
    ensures
        s1.history == s0.history,
        s1.etherscan_ready == s0.etherscan_ready,
        c.len() == 0,
        msg matches ERC20HistoryMsg::SetAddress(a) ==> {
            &&& s1.address == Some(a)
            &&& s1.error is None
            &&& s1.ens_name == s0.ens_name
            &&& s1.ws_connected == s0.ws_connected
            &&& r
        },
        msg matches ERC20HistoryMsg::SetEnsName(n) ==> {
            &&& s1.ens_name == Some(n)
            &&& s1.address == s0.address
            &&& s1.error == s0.error
            &&& s1.ws_connected == s0.ws_connected
            &&& r
        },
        msg matches ERC20HistoryMsg::SetError(e) ==> {
            &&& s1.error == Some(e)
            &&& s1.address == s0.address
            &&& s1.ens_name == s0.ens_name
            &&& s1.ws_connected == s0.ws_connected
            &&& !r
        },
        msg is SetWsClient ==> {
            &&& s1.ws_connected
            &&& s1.address == s0.address
            &&& s1.ens_name == s0.ens_name
            &&& s1.error == s0.error
            &&& !r
        },
{
}

/// The table of the last block and the first row of the table of previous
/// blocks show the same cells for the same block.
pub proof fn newest_row_is_last_block_table(b: BlockSummary, r1: BlockRow, r2: BlockRow)
    requires
        row_of(r1, b),
        row_of(r2, b),
    ensures
        r1.key@ == r2.key@,
        r1.link@ == r2.link@,
        r1.number@ == r2.number@,
        r1.hash@ == r2.hash@,
        r1.base_fee@ == r2.base_fee@,
        r1.gas_used@ == r2.gas_used@,
        r1.transactions@ == r2.transactions@,
        r1.size@ == r2.size@,
{
}

/// A parallel-coordinates record names its own transfer on the axes: its
/// token position holds the transfer's contract, its sender position holds
/// the transfer's sender as displayed, its recipient position the
/// recipient; its amount is the value with the token's decimals plus four,
/// and it is marked received exactly when the viewed account is the
/// recipient.
pub proof fn tick_names_its_transfer(k: Tick, t: TokenTransfer, info: Information, viewer: Seq<u8>)
    requires
        tick_of(k, t, info, viewer),
    ensures
        k.contract_address < info.tokens.len(),
        info.tokens@[k.contract_address as int].contract_address@ == t.contract_address@,
        k.from < info.from.len(),
        info.from@[k.from as int]@ == short_hex(t.from@),
        k.to < info.to.len(),
        info.to@[k.to as int]@ == short_hex(t.to->0@),
        k.token_name@ == t.token_name@,
        k.timestamp@ == t.time_stamp@,
        k.received <==> t.to->0@ == viewer,
        forall|d: i32|
            spec_parse_i32(t.token_decimal@) == Some(d) ==> k.amount@ == spec_format_units(
                t.value@,
                (d + 4) as nat,
            ),
{
    assert(texts(info.from@)[k.from as int] == info.from@[k.from as int]@);
    assert(texts(info.to@)[k.to as int] == info.to@[k.to as int]@);
}

/// On the axes of a history, the sender and recipient positions of a
/// record are the only positions that hold its sender and recipient.
pub proof fn tick_positions_are_unique(
    k: Tick,
    t: TokenTransfer,
    h: Seq<TokenTransfer>,
    info: Information,
    viewer: Seq<u8>,
    j: int,
)
    requires
        info_of(info, h),
        tick_of(k, t, info, viewer),
        0 <= j < info.from.len() || 0 <= j < info.to.len(),
    ensures
        0 <= j < info.from.len() && info.from@[j]@ == short_hex(t.from@) ==> j == k.from,
        0 <= j < info.to.len() && info.to@[j]@ == short_hex(t.to->0@) ==> j == k.to,
{
    lemma_distinct(all_froms(h));
    lemma_distinct(all_tos(h));
    if 0 <= j < info.from.len() && info.from@[j]@ == short_hex(t.from@) {
        assert(texts(info.from@)[j] == texts(info.from@)[k.from as int]);
    }
    if 0 <= j < info.to.len() && info.to@[j]@ == short_hex(t.to->0@) {
        assert(texts(info.to@)[j] == texts(info.to@)[k.to as int]);
    }
}

/// Every entry of the axes of a history comes from the history: each token
/// is the token of some transfer, each sender position the sender of some
/// transfer, each recipient position the recipient of some transfer.
pub proof fn axes_come_from_the_history(h: Seq<TokenTransfer>, info: Information)
    requires
        info_of(info, h),
    ensures
        forall|j: int|
            0 <= j < info.tokens.len() ==> exists|i: int|
                0 <= i < h.len() && (#[trigger] info.tokens@[j]).contract_address@
                    == h[i].contract_address@ && info.tokens@[j].token_name@ == h[i].token_name@,
        forall|j: int|
            0 <= j < info.from.len() ==> exists|i: int|
                0 <= i < h.len() && (#[trigger] info.from@[j])@ == short_hex(h[i].from@),
        forall|j: int|
            0 <= j < info.to.len() ==> exists|i: int|
                0 <= i < h.len() && (#[trigger] info.to@[j])@ == short_hex(h[i].to->0@),
{
    lemma_distinct(all_tokens(h));
    lemma_distinct(all_froms(h));
    lemma_distinct(all_tos(h));
    assert forall|j: int| 0 <= j < info.tokens.len() implies exists|i: int|
        0 <= i < h.len() && (#[trigger] info.tokens@[j]).contract_address@ == h[i].contract_address@
            && info.tokens@[j].token_name@ == h[i].token_name@ by {
        assert(token_views(info.tokens@)[j] == info.tokens@[j]@);
        assert(token_views(info.tokens@).contains(info.tokens@[j]@));
        assert(all_tokens(h).contains(info.tokens@[j]@));
        assert(distinct(all_tokens(h)).contains(info.tokens@[j]@));
        let i = choose|i: int| 0 <= i < all_tokens(h).len() && all_tokens(h)[i] == info.tokens@[j]@;
        assert(all_tokens(h)[i] == (h[i].contract_address@, h[i].token_name@));
    }
    assert forall|j: int| 0 <= j < info.from.len() implies exists|i: int|
        0 <= i < h.len() && (#[trigger] info.from@[j])@ == short_hex(h[i].from@) by {
        assert(texts(info.from@)[j] == info.from@[j]@);
        assert(texts(info.from@).contains(info.from@[j]@));
        assert(all_froms(h).contains(info.from@[j]@));
        assert(distinct(all_froms(h)).contains(info.from@[j]@));
        let i = choose|i: int| 0 <= i < all_froms(h).len() && all_froms(h)[i] == info.from@[j]@;
        assert(all_froms(h)[i] == short_hex(h[i].from@));
    }
    assert forall|j: int| 0 <= j < info.to.len() implies exists|i: int|
        0 <= i < h.len() && (#[trigger] info.to@[j])@ == short_hex(h[i].to->0@) by {
        assert(texts(info.to@)[j] == info.to@[j]@);
        assert(texts(info.to@).contains(info.to@[j]@));
        assert(all_tos(h).contains(info.to@[j]@));
        assert(distinct(all_tos(h)).contains(info.to@[j]@));
        let i = choose|i: int| 0 <= i < all_tos(h).len() && all_tos(h)[i] == info.to@[j]@;
        assert(all_tos(h)[i] == short_hex(h[i].to->0@));
    }
}

/// A parallel-sets record keeps the direction of its transfer: its sender
/// is the transfer's sender, its recipient the transfer's recipient, and it
/// is marked received exactly when its recipient is the viewed account.
pub proof fn sank_keeps_the_flow(s: Sank, t: TokenTransfer, viewer: Seq<u8>)
    requires
        sank_of(s, t, viewer),
    ensures
        s.from@ == t.from@,
        s.to@ == t.to->0@,
        s.received <==> s.to@ == viewer,
        s.token_name@ == t.token_name@,
        s.timestamp@ == t.time_stamp@,
        s.value@ == "1"@,
{
}

/// The records plotted for loaded transfers are the transfers, one each,
/// in order and in their direction, seen from the accepted account.
pub proof fn plotted_records_follow_the_transfers(
    s0: ERC20History,
    txs: Vec<TokenTransfer>,
    s1: ERC20History,
    r: bool,
    c: Seq<Command>,
    records: Vec<Sank>,
)
    requires
        updated(s0, ERC20HistoryMsg::SetResult(txs), s1, r, c),
        c.len() > 0 && c[0] == Command::PlotParallelSet(records),
    ensures
        c.len() == 1,
        records.len() == txs.len(),
        forall|i: int|
            0 <= i < records.len() ==> (#[trigger] records@[i]).from@ == txs@[i].from@
                && records@[i].to@ == txs@[i].to->0@ && (records@[i].received <==> records@[i].to@
                == s0.address->0@),
{
    assert forall|i: int| 0 <= i < records.len() implies (#[trigger] records@[i]).from@
        == txs@[i].from@ && records@[i].to@ == txs@[i].to->0@ && (records@[i].received
        <==> records@[i].to@ == s0.address->0@) by {
        assert(sank_of(records@[i], txs@[i], s0.address->0@));
    }
}

/// A search text that parses as an address (and is no ENS name) makes the
/// panel look that address up and send `SetAddress` with exactly the
/// parsed bytes, whatever address it had accepted before; handling that
/// message makes the searched address the accepted one.
pub proof fn searched_address_is_accepted(
    s0: ERC20History,
    input: String,
    bytes: Seq<u8>,
    s1: ERC20History,
    r1: bool,
    c1: Seq<Command>,
    m: ERC20HistoryMsg,
    s2: ERC20History,
    r2: bool,
    c2: Seq<Command>,
)
    requires
        !has_suffix(lowercase(input@), ".eth"@),
        spec_parse_address(lowercase(input@)) == Some(bytes),
        updated(s0, ERC20HistoryMsg::FetchAddress(input), s1, r1, c1),
        c1.len() > 1 && c1[1] == Command::Send(m),
        updated(s1, m, s2, r2, c2),
    ensures
        c1.len() == 2,
        c1[0] matches Command::LookupAddress(a) && a@ == bytes,
        m matches ERC20HistoryMsg::SetAddress(a) && a@ == bytes,
        s2.address matches Some(a) && a@ == bytes,
        s2.error is None,
{
}

/// A search text ending in `.eth` (in lower case) asks the provider to
/// resolve exactly that name and changes nothing else.
pub proof fn ens_search_resolves_the_name(
    s0: ERC20History,
    input: String,
    s1: ERC20History,
    r: bool,
    c: Seq<Command>,
)
    requires
        has_suffix(lowercase(input@), ".eth"@),
        updated(s0, ERC20HistoryMsg::FetchAddress(input), s1, r, c),
    ensures
        r,
        s1 == s0,
        c.len() == 1,
        c[0] matches Command::ResolveName(name) && name@ == lowercase(input@),
{
}

/// What a search text designates: an ENS name when it ends in `.eth`,
/// otherwise the address it parses as, otherwise nothing.
pub proof fn search_target_designates(t: SearchTarget, lowered: Seq<char>)
    requires
        is_target_of(t, lowered),
    ensures
        has_suffix(lowered, ".eth"@) ==> (t matches SearchTarget::Ens(name) && name@ == lowered),
        !has_suffix(lowered, ".eth"@) && spec_parse_address(lowered) is Some ==> (t matches SearchTarget::Account(a)
            && spec_parse_address(lowered) == Some(a@)),
        !has_suffix(lowered, ".eth"@) && spec_parse_address(lowered) is None ==> t is Invalid,
{
}

/// With the etherscan client ready and an address accepted, fetching asks
/// for exactly that address's transfers, whatever error was shown; the
/// error is cleared, nothing else changes, and the panel is not redrawn.
/// Without the client nothing is asked.
pub proof fn fetch_asks_for_the_accepted_address(
    s0: ERC20History,
    a: Address,
    s1: ERC20History,
    r: bool,
    c: Seq<Command>,
)
    requires
        s0.address == Some(a),
        updated(s0, ERC20HistoryMsg::FetchERC20Transactions, s1, r, c),
    ensures
        s0.etherscan_ready ==> c == seq![Command::FetchTransfers(a)],
        !s0.etherscan_ready ==> c.len() == 0,
        s1.error is None,
        s1.address == s0.address,
        s1.history == s0.history,
        !r,
{
    if s0.etherscan_ready {
        assert(c =~= seq![Command::FetchTransfers(a)]);
    }
}

/// The panel shows each recorded value on its own: an accepted address is
/// shown (with its fetch button) whatever error, name or transfers are
/// there, and likewise the name, the error and the count.
pub proof fn view_shows_each_value(s: ERC20History, v: HistoryView)
    requires
        view_of(s, v),
    ensures
        forall|a: Address|
            s.address == Some(a) ==> (v.address_line matches Some(line) && line@
                == "Address accepted "@ + short_hex(a@)),
        s.address is None ==> v.address_line is None,
        forall|n: String| s.ens_name == Some(n) ==> (v.ens_line matches Some(line) && line@ == "ENS: "@ + n@),
        forall|e: String| s.error == Some(e) ==> (v.error_line matches Some(line) && line@ == "Error: "@ + e@),
        s.error is None ==> v.error_line is None,
        s.history.len() > 0 ==> (v.count_line matches Some(line) && line@ == decimal(
            s.history.len() as nat,
        ) + " ERC20 transactions"@),
        s.history.len() == 0 ==> v.count_line is None,
{
}

/// An error after an accepted address leaves the address shown, with its
/// fetch button, beside the error.
pub proof fn error_keeps_the_address_shown(
    s0: ERC20History,
    a: Address,
    e: String,
    s1: ERC20History,
    r: bool,
    c: Seq<Command>,
    v: HistoryView,
)
    requires
        s0.address == Some(a),
        updated(s0, ERC20HistoryMsg::SetError(e), s1, r, c),
        view_of(s1, v),
    ensures
        v.address_line matches Some(line) && line@ == "Address accepted "@ + short_hex(a@),
        v.error_line matches Some(line) && line@ == "Error: "@ + e@,
{
}

/// A row shows its block: the link leads to the page of the number shown,
/// the key is the hash shown, and each cell renders its value.
pub proof fn row_shows_its_block(r: BlockRow, b: BlockSummary)
    requires
        displayable(b),
        row_of(r, b),
    ensures
        r.link@ == "https://etherscan.io/block/"@ + r.number@,
        r.key@ == r.hash@,
        b.number matches Some(n) && r.number@ == decimal(n as nat),
        b.hash matches Some(h) && r.hash@ == short_hex(h@),
        b.base_fee_per_gas matches Some(f) && r.base_fee@ == truncated(spec_format_units(f@, 9), 3)
            + " gwei"@,
        r.gas_used@ == decimal(b.gas_used@),
        r.transactions@ == decimal(b.transaction_count as nat),
        b.size matches Some(z) && r.size@ == decimal(z@) + " bytes"@,
{
}

/// The panel refuses a message exactly where it would need what it lacks:
/// a provider to resolve or look up a search text that names something, an
/// accepted address to fetch for, recipients and an accepted account for
/// loaded transfers. Every other message is handled in any state.
pub proof fn handled_unless_something_is_missing(s: ERC20History, msg: ERC20HistoryMsg)
    ensures
        msg matches ERC20HistoryMsg::FetchAddress(input) ==> (can_update(s, msg) <==> (s.ws_connected
            || (!has_suffix(lowercase(input@), ".eth"@) && spec_parse_address(lowercase(input@))
            is None))),
        msg is FetchERC20Transactions ==> (can_update(s, msg) <==> s.address is Some),
        msg matches ERC20HistoryMsg::SetResult(txs) ==> (can_update(s, msg) <==> ((forall|i: int|
            0 <= i < txs.len() ==> (#[trigger] txs@[i]).to is Some) && (txs.len() > 0
            ==> s.address is Some))),
        msg is SetAddress || msg is SetEnsName || msg is SetError || msg is SetWsClient
            ==> can_update(s, msg),
{
}

proof fn lemma_distinct_prefix<A>(s: Seq<A>, k: int)
    requires
        0 <= k <= s.len(),
    ensures
        distinct(s.take(k)).len() <= distinct(s).len(),
        forall|i: int|
            0 <= i < distinct(s.take(k)).len() ==> #[trigger] distinct(s.take(k))[i]
                == distinct(s)[i],
    decreases s.len(),
{
    if k == s.len() {
        assert(s.take(k) =~= s);
    } else {
        let p = s.drop_last();
        lemma_distinct_prefix(p, k);
        assert(p.take(k) =~= s.take(k));
    }
}

/// The distinct values of a prefix of a sequence are a prefix of its
/// distinct values: values keep the order in which they first occur, and
/// the first value comes first.
pub proof fn distinct_keeps_first_occurrence_order<A>(s: Seq<A>, k: int)
    requires
        0 <= k <= s.len(),
    ensures
        distinct(s.take(k)).len() <= distinct(s).len(),
        forall|i: int|
            0 <= i < distinct(s.take(k)).len() ==> #[trigger] distinct(s.take(k))[i]
                == distinct(s)[i],
        s.len() > 0 ==> distinct(s)[0] == s[0],
{
    lemma_distinct_prefix(s, k);
    if s.len() > 0 {
        lemma_distinct_prefix(s, 1);
        assert(s.take(1).drop_last() =~= Seq::<A>::empty());
        assert(distinct(Seq::<A>::empty()) =~= Seq::<A>::empty());
        assert(!Seq::<A>::empty().contains(s[0]));
        assert(s.take(1).last() == s[0]);
        assert(distinct(s.take(1)) =~= seq![s[0]]);
        assert(distinct(s.take(1))[0] == distinct(s)[0]);
    }
}

/// The table of previous blocks shows at most six rows, six when there
/// are that many blocks, and starts with the newest (last) block; each next
/// row shows the block before.
pub proof fn previous_rows_newest_first(rows: Seq<BlockRow>, blocks: Seq<BlockSummary>)
    requires
        previous_rows(rows, blocks),
    ensures
        rows.len() <= 6,
        rows.len() <= blocks.len(),
        blocks.len() >= 6 ==> rows.len() == 6,
        blocks.len() < 6 ==> rows.len() == blocks.len(),
        blocks.len() > 0 ==> row_of(rows[0], blocks.last()),
        forall|i: int|
            0 <= i < rows.len() ==> row_of(#[trigger] rows[i], blocks[blocks.len() - 1 - i]),
{
}

} // verus!
