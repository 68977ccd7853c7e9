# mainnet_explorer

A small Ethereum mainnet explorer: a panel that looks up an account (by
address or ENS name), loads its ERC-20 transfers from etherscan and charts
them, and tables of the latest blocks.

- `src/` is the verified library (Verus):
  - `text.rs`: decimal renderings and the calls into std's string handling;
  - `ethereum.rs`: addresses, hashes and 256-bit amounts, and the calls into
    `ethers` that parse and render them;
  - `blocks.rs`: the rows of the block tables;
  - `charts.rs`: the data sets behind the transfer charts;
  - `history.rs`: the state machine of the ERC-20 history panel and what it
    shows;
  - `laws.rs`: properties that span several calls.
- `app/` is the web front end (yew): it reads the page, talks to the
  provider and to etherscan, draws, and hands the results to the library.
- `tests/` runs the library on concrete values.
