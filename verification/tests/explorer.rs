use mainnet_explorer::blocks::{
    block_row, prevs_table, table_block, BlockSummary, HistoryBlocksProps, LastBlockProps,
};
use mainnet_explorer::charts::{TokenTransfer};
use mainnet_explorer::ethereum::{Address, Amount, Hash32};
use mainnet_explorer::history::{
    classify_search, search_target, Command, ERC20History, ERC20HistoryMsg, SearchTarget,
};

fn addr(first: u8, last: u8) -> Address {
    let mut bytes = [0u8; 20];
    bytes[0] = first;
    bytes[1] = 0x34;
    bytes[18] = 0xab;
    bytes[19] = last;
    Address { bytes }
}

fn amount(v: u64) -> Amount {
    Amount { limbs: [v, 0, 0, 0] }
}

fn block(number: u64) -> BlockSummary {
    let mut hash = [0u8; 32];
    hash[0] = 0xde;
    hash[1] = 0xad;
    hash[30] = 0xbe;
    hash[31] = number as u8;
    BlockSummary {
        number: Some(number),
        hash: Some(Hash32 { bytes: hash }),
        base_fee_per_gas: Some(amount(12_345_678_901)),
        gas_used: amount(21_000),
        transaction_count: 3,
        size: Some(amount(1234)),
    }
}

fn transfer(from: Address, to: Address, token: Address, name: &str, value: u64, decimals: &str) -> TokenTransfer {
    TokenTransfer {
        token_name: name.to_string(),
        time_stamp: "1663000000".to_string(),
        from,
        to: Some(to),
        contract_address: token,
        value: amount(value),
        token_decimal: decimals.to_string(),
    }
}

#[test]
fn block_row_cells() {
    let row = block_row(&block(15_000_000));
    assert_eq!(row.link, "https://etherscan.io/block/15000000");
    assert_eq!(row.number, "15000000");
    assert_eq!(row.hash, "0xdead\u{2026}bec0");
    assert_eq!(row.key, row.hash);
    // 12345678901 wei are "12.345678901" gwei, cut to three characters.
    assert_eq!(row.base_fee, "12. gwei");
    assert_eq!(row.gas_used, "21000");
    assert_eq!(row.transactions, "3");
    assert_eq!(row.size, "1234 bytes");
}

#[test]
fn small_base_fee_is_padded_then_cut() {
    let mut b = block(1);
    b.base_fee_per_gas = Some(amount(7));
    // "0.000000007" gwei, cut to "0.0".
    assert_eq!(block_row(&b).base_fee, "0.0 gwei");
}

#[test]
fn large_amounts_use_all_limbs() {
    let mut b = block(2);
    b.gas_used = Amount { limbs: [0, 1, 0, 0] };
    assert_eq!(block_row(&b).gas_used, "18446744073709551616");
}

#[test]
fn last_block_table() {
    let row = table_block(&LastBlockProps { last_block: block(42) });
    assert_eq!(row.number, "42");
    assert_eq!(row.link, "https://etherscan.io/block/42");
}

#[test]
fn previous_blocks_newest_first_at_most_six() {
    let blocks: Vec<BlockSummary> = (1..=8).map(block).collect();
    let rows = prevs_table(&HistoryBlocksProps { blocks });
    let numbers: Vec<&str> = rows.iter().map(|r| r.number.as_str()).collect();
    assert_eq!(numbers, vec!["8", "7", "6", "5", "4", "3"]);

    let few: Vec<BlockSummary> = (1..=2).map(block).collect();
    let rows = prevs_table(&HistoryBlocksProps { blocks: few });
    assert_eq!(rows.len(), 2);
    assert_eq!(rows[0].number, "2");
    assert!(prevs_table(&HistoryBlocksProps { blocks: vec![] }).is_empty());
}

#[test]
fn search_classification() {
    match classify_search("vitalik.eth") {
        SearchTarget::Ens(name) => assert_eq!(name, "vitalik.eth"),
        _ => panic!("expected an ENS name"),
    }
    let hex = "0x000000000000000000000000000000000000dead";
    match classify_search(hex) {
        SearchTarget::Account(a) => {
            assert_eq!(a.bytes[18], 0xde);
            assert_eq!(a.bytes[19], 0xad);
            assert_eq!(a.bytes[0], 0);
        }
        _ => panic!("expected an address"),
    }
    // Without 0x, and with blanks, the parser still reads 40 digits.
    match classify_search("00000000000000000000 000000000000000000ff") {
        SearchTarget::Account(a) => assert_eq!(a.bytes[19], 0xff),
        _ => panic!("expected an address"),
    }
    assert!(matches!(classify_search("0x1234"), SearchTarget::Invalid));
    assert!(matches!(classify_search("0xzz00000000000000000000000000000000000000"), SearchTarget::Invalid));
    assert!(matches!(classify_search(""), SearchTarget::Invalid));
}

#[test]
fn search_reads_lower_case() {
    match search_target("Vitalik.ETH") {
        SearchTarget::Ens(name) => assert_eq!(name, "vitalik.eth"),
        _ => panic!("expected an ENS name"),
    }
    match search_target("0x000000000000000000000000000000000000DEAD") {
        SearchTarget::Account(a) => assert_eq!(a.bytes[19], 0xad),
        _ => panic!("expected an address"),
    }
}

#[test]
fn create_with_and_without_etherscan() {
    let ok = ERC20History::create(Ok(()));
    assert!(ok.etherscan_ready && ok.error.is_none() && !ok.ws_connected);
    let failed = ERC20History::create(Err("bad key".to_string()));
    assert!(!failed.etherscan_ready);
    assert_eq!(failed.error.as_deref(), Some("bad key"));
}

#[test]
fn panel_flow() {
    let mut panel = ERC20History::create(Ok(()));
    let (render, cmds) = panel.update(ERC20HistoryMsg::SetWsClient);
    assert!(!render && cmds.is_empty() && panel.ws_connected);

    let (render, cmds) = panel.update(ERC20HistoryMsg::FetchAddress("VITALIK.eth".to_string()));
    assert!(render);
    assert!(matches!(&cmds[..], [Command::ResolveName(n)] if n == "vitalik.eth"));

    let a = addr(0x12, 0xef);
    let (render, cmds) = panel.update(ERC20HistoryMsg::FetchAddress(
        "0x1234000000000000000000000000000000000000".to_string(),
    ));
    assert!(render);
    assert_eq!(cmds.len(), 2);
    assert!(matches!(cmds[0], Command::LookupAddress(_)));
    assert!(matches!(cmds[1], Command::Send(ERC20HistoryMsg::SetAddress(_))));

    let (render, _) = panel.update(ERC20HistoryMsg::SetAddress(a));
    assert!(render);
    let view = panel.view();
    assert_eq!(view.address_line.as_deref(), Some("Address accepted 0x1234\u{2026}abef"));
    assert!(view.error_line.is_none() && view.count_line.is_none() && view.ens_line.is_none());

    let (render, _) = panel.update(ERC20HistoryMsg::SetEnsName("vitalik.eth".to_string()));
    assert!(render);
    assert_eq!(panel.view().ens_line.as_deref(), Some("ENS: vitalik.eth"));

    let (render, cmds) = panel.update(ERC20HistoryMsg::FetchERC20Transactions);
    assert!(!render);
    assert!(matches!(&cmds[..], [Command::FetchTransfers(x)] if x.bytes == a.bytes));

    let token = addr(0x77, 0x01);
    let other = addr(0x99, 0x02);
    let txs = vec![
        transfer(a, other, token, "Tether", 5, "6"),
        transfer(other, a, token, "Tether", 6, "6"),
    ];
    let (render, cmds) = panel.update(ERC20HistoryMsg::SetResult(txs));
    assert!(render);
    match &cmds[..] {
        [Command::PlotParallelSet(records)] => {
            assert_eq!(records.len(), 2);
            // The first transfer was sent by the account, the second received.
            assert!(!records[0].received);
            assert!(records[1].received);
            assert_eq!(records[0].value, "1");
            assert_eq!(records[1].token_name, "Tether");
            assert_eq!(records[1].timestamp, "1663000000");
        }
        _ => panic!("expected one plot"),
    }
    assert_eq!(panel.view().count_line.as_deref(), Some("2 ERC20 transactions"));

    let (render, cmds) = panel.update(ERC20HistoryMsg::SetError("boom".to_string()));
    assert!(!render && cmds.is_empty());
    assert_eq!(panel.view().error_line.as_deref(), Some("Error: boom"));
}

#[test]
fn wrong_address_is_forgotten() {
    let mut panel = ERC20History::create(Ok(()));
    panel.update(ERC20HistoryMsg::SetAddress(addr(1, 2)));
    let (render, cmds) = panel.update(ERC20HistoryMsg::FetchAddress("not an address".to_string()));
    assert!(render);
    assert!(panel.address.is_none());
    assert!(matches!(&cmds[..], [Command::Send(ERC20HistoryMsg::SetError(e))] if e == "Address wrong!"));
    assert!(panel.view().address_line.is_none());
}

#[test]
fn fetch_without_etherscan_asks_nothing() {
    let mut panel = ERC20History::create(Err("no client".to_string()));
    panel.update(ERC20HistoryMsg::SetAddress(addr(1, 2)));
    let (render, cmds) = panel.update(ERC20HistoryMsg::FetchERC20Transactions);
    assert!(!render && cmds.is_empty());
    assert!(panel.error.is_none());
}

#[test]
fn try_update_refuses_what_would_fail() {
    let mut panel = ERC20History::create(Ok(()));
    // No provider yet: a name cannot be resolved.
    assert!(panel.try_update(ERC20HistoryMsg::FetchAddress("a.eth".to_string())).is_none());
    // A wrong address needs no provider.
    assert!(panel.try_update(ERC20HistoryMsg::FetchAddress("nope".to_string())).is_some());
    // No address to fetch for.
    assert!(panel.try_update(ERC20HistoryMsg::FetchERC20Transactions).is_none());
    // Transfers without an account to be seen from.
    let t = transfer(addr(1, 1), addr(2, 2), addr(3, 3), "T", 1, "0");
    assert!(panel.try_update(ERC20HistoryMsg::SetResult(vec![t.clone()])).is_none());
    assert!(panel.try_update(ERC20HistoryMsg::SetResult(vec![])).is_some());
    panel.update(ERC20HistoryMsg::SetAddress(addr(1, 1)));
    let mut no_recipient = t.clone();
    no_recipient.to = None;
    assert!(panel.try_update(ERC20HistoryMsg::SetResult(vec![no_recipient])).is_none());
    assert!(panel.try_update(ERC20HistoryMsg::SetResult(vec![t])).is_some());
    assert_eq!(panel.history.len(), 1);
}

#[test]
fn outcome_messages() {
    assert!(matches!(ERC20HistoryMsg::on_connected(Ok(())), ERC20HistoryMsg::SetWsClient));
    assert!(matches!(ERC20HistoryMsg::on_connected(Err("down".to_string())), ERC20HistoryMsg::SetError(e) if e == "down"));
    assert!(matches!(ERC20HistoryMsg::on_name_resolved(Ok(addr(1, 2))), ERC20HistoryMsg::SetAddress(_)));
    assert!(matches!(ERC20HistoryMsg::on_name_resolved(Err(())), ERC20HistoryMsg::SetError(e) if e == "Provider error"));
    assert!(matches!(ERC20HistoryMsg::on_name_found(Ok("x.eth".to_string())), ERC20HistoryMsg::SetEnsName(n) if n == "x.eth"));
    assert!(matches!(ERC20HistoryMsg::on_name_found(Err("none".to_string())), ERC20HistoryMsg::SetError(e) if e == "none"));
    assert!(matches!(ERC20HistoryMsg::on_transfers(Ok(vec![])), ERC20HistoryMsg::SetResult(v) if v.is_empty()));
    assert!(matches!(ERC20HistoryMsg::on_transfers(Err("rate".to_string())), ERC20HistoryMsg::SetError(e) if e == "rate"));
}

fn loaded_panel(viewer: Address, txs: Vec<TokenTransfer>) -> ERC20History {
    let mut panel = ERC20History::create(Ok(()));
    panel.update(ERC20HistoryMsg::SetAddress(viewer));
    panel.update(ERC20HistoryMsg::SetResult(txs));
    panel
}

#[test]
fn unique_lists_keep_first_occurrence_order() {
    let me = addr(0x10, 0x01);
    let usdt = addr(0xda, 0xc1);
    let dai = addr(0x6b, 0x75);
    let x = addr(0x20, 0x02);
    let y = addr(0x30, 0x03);
    let panel = loaded_panel(me, vec![
        transfer(me, x, usdt, "Tether", 1, "6"),
        transfer(x, me, dai, "Dai", 2, "18"),
        transfer(me, y, usdt, "Tether", 3, "6"),
        transfer(y, me, usdt, "TetherV2", 4, "6"),
    ]);
    let tokens = panel.unique_tokens();
    let names: Vec<&str> = tokens.iter().map(|t| t.token_name.as_str()).collect();
    assert_eq!(names, vec!["Tether", "Dai", "TetherV2"]);
    assert_eq!(panel.unique_froms(), vec!["0x1034\u{2026}ab01", "0x2034\u{2026}ab02", "0x3034\u{2026}ab03"]);
    assert_eq!(panel.unique_to(), vec!["0x2034\u{2026}ab02", "0x1034\u{2026}ab01", "0x3034\u{2026}ab03"]);
}

#[test]
fn senders_with_the_same_display_are_one() {
    // Two addresses that differ only in the middle bytes display alike.
    let a = addr(0x10, 0x01);
    let mut b = a;
    b.bytes[10] = 0xff;
    let panel = loaded_panel(a, vec![
        transfer(a, b, a, "T", 1, "0"),
        transfer(b, a, a, "T", 1, "0"),
    ]);
    assert_eq!(panel.unique_froms().len(), 1);
}

#[test]
fn parallel_coordinates_positions_and_amounts() {
    let me = addr(0x10, 0x01);
    let usdt = addr(0xda, 0xc1);
    let dai = addr(0x6b, 0x75);
    let x = addr(0x20, 0x02);
    let panel = loaded_panel(me, vec![
        transfer(me, x, usdt, "Tether", 1_500_000, "6"),
        transfer(x, me, dai, "Dai", 1_500_000_000_000_000_000, "18"),
        transfer(me, x, dai, "Dai (old)", 25, "0"),
    ]);
    let (ticks, info) = panel.get_parallel_coordinates_data();
    assert_eq!(info.tokens.len(), 3);
    assert_eq!(info.from.len(), 2);
    assert_eq!(info.to.len(), 2);
    assert_eq!(ticks.len(), 3);
    assert_eq!((ticks[0].contract_address, ticks[0].from, ticks[0].to), (0, 0, 0));
    assert_eq!((ticks[1].contract_address, ticks[1].from, ticks[1].to), (1, 1, 1));
    // The third token shares the contract of the second: its position is
    // the first token with that contract.
    assert_eq!((ticks[2].contract_address, ticks[2].from, ticks[2].to), (1, 0, 0));
    // 1.5 USDT with 6 + 4 decimals.
    assert_eq!(ticks[0].amount, "0.0001500000");
    // 1.5 DAI with 18 + 4 decimals.
    assert_eq!(ticks[1].amount, "0.0001500000000000000000");
    // 25 with 0 + 4 decimals.
    assert_eq!(ticks[2].amount, "0.0025");
    assert!(!ticks[0].received && ticks[1].received && !ticks[2].received);
    assert_eq!(ticks[1].token_name, "Dai");
}

#[test]
fn negative_and_signed_decimals() {
    let me = addr(0x10, 0x01);
    let panel = loaded_panel(me, vec![
        transfer(me, me, me, "A", 123_456, "-4"),
        transfer(me, me, me, "B", 123_456, "+1"),
    ]);
    let (ticks, _) = panel.get_parallel_coordinates_data();
    assert_eq!(ticks[0].amount, "123456.0");
    assert_eq!(ticks[1].amount, "1.23456");
}

#[test]
fn info_matches_unique_lists() {
    let me = addr(0x10, 0x01);
    let x = addr(0x20, 0x02);
    let panel = loaded_panel(me, vec![transfer(me, x, x, "T", 1, "0")]);
    let info = panel.get_info();
    assert_eq!(info.from, panel.unique_froms());
    assert_eq!(info.to, panel.unique_to());
    assert_eq!(info.tokens.len(), 1);
}
