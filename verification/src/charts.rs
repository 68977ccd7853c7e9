//! The data sets behind the ERC-20 transfer charts: the distinct tokens
//! and counterparties of the loaded history, one record per transfer for
//! the parallel-sets chart, and one indexed record per transfer for the
//! parallel-coordinates chart.

use vstd::prelude::*;
use crate::ethereum::{address_to_string, format_units, short_hex, spec_format_units, Address, Amount};
use crate::history::ERC20History;
use crate::text::{parse_i32, spec_parse_i32};

verus! {

/// What the charts read of an ERC-20 transfer event
/// (`ethers::etherscan::account::ERC20TokenTransferEvent`).
#[derive(Clone, Debug)]
pub struct TokenTransfer {
    pub token_name: String,
    pub time_stamp: String,
    pub from: Address,
    pub to: Option<Address>,
    pub contract_address: Address,
    pub value: Amount,
    pub token_decimal: String,
}

/// A token: its contract and its name.
#[derive(Clone, Debug)]
pub struct TokenData {
    pub contract_address: Address,
    pub token_name: String,
}

impl View for TokenData {
    type V = (Seq<u8>, Seq<char>);

    open spec fn view(&self) -> (Seq<u8>, Seq<char>) {
        (self.contract_address@, self.token_name@)
    }
}

/// One transfer as the parallel-sets chart shows it.
#[derive(Clone, Debug)]
pub struct Sank {
    pub timestamp: String,
    pub from: Address,
    pub token_name: String,
    pub to: Address,
    /// Whether the account being viewed is the recipient (otherwise it
    /// sent the tokens).
    pub received: bool,
    pub value: String,
}

/// One transfer as the parallel-coordinates chart shows it: the token,
/// sender and recipient by their positions in `Information`.
#[derive(Clone, Debug)]
pub struct Tick {
    pub token_name: String,
    pub contract_address: usize,
    pub timestamp: String,
    pub from: usize,
    pub to: usize,
    pub amount: String,
    /// Whether the account being viewed is the recipient (otherwise it
    /// sent the tokens).
    pub received: bool,
}

/// The axes of the parallel-coordinates chart.
#[derive(Clone, Debug)]
pub struct Information {
    pub tokens: Vec<TokenData>,
    pub from: Vec<String>,
    pub to: Vec<String>,
}

/// The elements of `s` in the order of their first occurrence, each once.
pub open spec fn distinct<A>(s: Seq<A>) -> Seq<A>
    decreases s.len(),
{
    if s.len() == 0 {
        Seq::empty()
    } else {
        let d = distinct(s.drop_last());
        if d.contains(s.last()) {
            d
        } else {
            d.push(s.last())
        }
    }
}

/// The texts of a sequence of strings.
pub open spec fn texts(v: Seq<String>) -> Seq<Seq<char>> {
    v.map_values(|s: String| s@)
}

/// The tokens of a sequence of tokens, by value.
pub open spec fn token_views(v: Seq<TokenData>) -> Seq<(Seq<u8>, Seq<char>)> {
    v.map_values(|t: TokenData| t@)
}

/// The token of a transfer.
pub open spec fn token_key(t: TokenTransfer) -> (Seq<u8>, Seq<char>) {
    (t.contract_address@, t.token_name@)
}

/// The sender of a transfer as displayed.
pub open spec fn from_key(t: TokenTransfer) -> Seq<char> {
    short_hex(t.from@)
}

/// The recipient of a transfer as displayed.
pub open spec fn to_key(t: TokenTransfer) -> Seq<char> {
    short_hex(t.to->0@)
}

pub open spec fn all_tokens(h: Seq<TokenTransfer>) -> Seq<(Seq<u8>, Seq<char>)> {
    h.map_values(|t: TokenTransfer| token_key(t))
}

pub open spec fn all_froms(h: Seq<TokenTransfer>) -> Seq<Seq<char>> {
    h.map_values(|t: TokenTransfer| from_key(t))
}

pub open spec fn all_tos(h: Seq<TokenTransfer>) -> Seq<Seq<char>> {
    h.map_values(|t: TokenTransfer| to_key(t))
}

/// Every transfer has a recipient.
pub open spec fn all_have_recipient(h: Seq<TokenTransfer>) -> bool {
    forall|i: int| 0 <= i < h.len() ==> (#[trigger] h[i]).to is Some
}

/// The axes computed from a history.
pub open spec fn info_of(info: Information, h: Seq<TokenTransfer>) -> bool {
    &&& token_views(info.tokens@) == distinct(all_tokens(h))
    &&& texts(info.from@) == distinct(all_froms(h))
    &&& texts(info.to@) == distinct(all_tos(h))
}

/// The parallel-sets record of a transfer, seen from the account `viewer`.
pub open spec fn sank_of(s: Sank, t: TokenTransfer, viewer: Seq<u8>) -> bool {
    &&& s.token_name@ == t.token_name@
    &&& s.timestamp@ == t.time_stamp@
    &&& s.from@ == t.from@
    &&& s.to@ == t.to->0@
    &&& s.received == (t.to->0@ == viewer)
    &&& s.value@ == "1"@
}

/// The token decimals of a transfer parse as an `i32` that, with four
/// more, are units that `format_units` takes.
pub open spec fn has_units(t: TokenTransfer) -> bool {
    &&& spec_parse_i32(t.token_decimal@) is Some
    &&& -4 <= spec_parse_i32(t.token_decimal@)->0 <= 73
}

/// The amount of a transfer as the chart shows it: the value formatted
/// with four more decimals than the token has.
pub open spec fn tick_amount(t: TokenTransfer) -> Seq<char> {
    spec_format_units(t.value@, (spec_parse_i32(t.token_decimal@)->0 + 4) as nat)
}

/// `i` is the first position of `v` where `key` stands.
pub open spec fn first_position<A>(v: Seq<A>, key: A, i: int) -> bool {
    &&& 0 <= i < v.len()
    &&& v[i] == key
    &&& forall|j: int| 0 <= j < i ==> v[j] != key
}

/// `i` is the first position of a token with contract `a`.
pub open spec fn first_contract(v: Seq<TokenData>, a: Seq<u8>, i: int) -> bool {
    &&& 0 <= i < v.len()
    &&& v[i].contract_address@ == a
    &&& forall|j: int| 0 <= j < i ==> v[j].contract_address@ != a
}

/// The parallel-coordinates record of a transfer, against the axes `info`,
/// seen from the account `viewer`.
pub open spec fn tick_of(k: Tick, t: TokenTransfer, info: Information, viewer: Seq<u8>) -> bool {
    &&& k.token_name@ == t.token_name@
    &&& k.timestamp@ == t.time_stamp@
    &&& first_contract(info.tokens@, t.contract_address@, k.contract_address as int)
    &&& first_position(texts(info.from@), from_key(t), k.from as int)
    &&& first_position(texts(info.to@), to_key(t), k.to as int)
    &&& k.amount@ == tick_amount(t)
    &&& k.received == (t.to->0@ == viewer)
}

/// The first step of `distinct` on a longer prefix.
proof fn lemma_distinct_step<A>(s: Seq<A>, i: int)
    requires
        0 <= i < s.len(),
    ensures
        distinct(s.take(i + 1)) == (if distinct(s.take(i)).contains(s[i]) {
            distinct(s.take(i))
        } else {
            distinct(s.take(i)).push(s[i])
        }),
{
    assert(s.take(i + 1).drop_last() =~= s.take(i));
}

/// What a sequence holds after one more element.
proof fn lemma_contains_push<A>(s: Seq<A>, a: A)
    ensures
        forall|x: A| s.push(a).contains(x) <==> (s.contains(x) || x == a),
{
    assert forall|x: A| s.push(a).contains(x) <==> (s.contains(x) || x == a) by {
        if s.push(a).contains(x) {
            let k = choose|k: int| 0 <= k < s.push(a).len() && s.push(a)[k] == x;
            if k < s.len() {
                assert(s[k] == x);
            }
        }
        if s.contains(x) {
            let k = choose|k: int| 0 <= k < s.len() && s[k] == x;
            assert(s.push(a)[k] == x);
        }
        if x == a {
            assert(s.push(a)[s.len() as int] == x);
        }
    }
}

/// Distinct elements: `distinct(s)` holds no element twice, and holds
/// exactly the elements of `s`.
pub proof fn lemma_distinct<A>(s: Seq<A>)
    ensures
        distinct(s).no_duplicates(),
        forall|x: A| distinct(s).contains(x) <==> s.contains(x),
    decreases s.len(),
{
    if s.len() == 0 {
        assert forall|x: A| !s.contains(x) by {}
    } else {
        let p = s.drop_last();
        let d = distinct(p);
        lemma_distinct(p);
        assert(s =~= p.push(s.last()));
        lemma_contains_push(p, s.last());
        lemma_contains_push(d, s.last());
        assert(distinct(s) == (if d.contains(s.last()) { d } else { d.push(s.last()) }));
        assert forall|x: A| distinct(s).contains(x) <==> s.contains(x) by {
            assert(s.contains(x) <==> p.push(s.last()).contains(x));
            assert(p.push(s.last()).contains(x) <==> (p.contains(x) || x == s.last()));
            assert(d.contains(x) <==> p.contains(x));
            assert(d.contains(s.last()) <==> p.contains(s.last()));
            if !d.contains(s.last()) {
                assert(d.push(s.last()).contains(x) <==> (d.contains(x) || x == s.last()));
            }
        }
        if !d.contains(s.last()) {
            let e = d.push(s.last());
            assert forall|i: int, j: int| 0 <= i < e.len() && 0 <= j < e.len() && i != j implies e[i]
                != e[j] by {
                if i < d.len() && j < d.len() {
                    assert(d[i] != d[j]);
                } else if i < d.len() {
                    assert(d.contains(e[i]));
                } else {
                    assert(d.contains(e[j]));
                }
            }
        }
    }
}

/// The axes of the parallel-coordinates chart name each token, sender and
/// recipient once, and name every one of the history: each transfer finds
/// its place on them.
pub proof fn every_transfer_is_on_the_axes(h: Seq<TokenTransfer>, info: Information)
    requires
        info_of(info, h),
    ensures
        token_views(info.tokens@).no_duplicates(),
        texts(info.from@).no_duplicates(),
        texts(info.to@).no_duplicates(),
        forall|i: int|
            0 <= i < h.len() ==> {
                &&& token_views(info.tokens@).contains(token_key(#[trigger] h[i]))
                &&& texts(info.from@).contains(from_key(h[i]))
                &&& texts(info.to@).contains(to_key(h[i]))
            },
{
    lemma_distinct(all_tokens(h));
    lemma_distinct(all_froms(h));
    lemma_distinct(all_tos(h));
    assert forall|i: int| 0 <= i < h.len() implies {
        &&& token_views(info.tokens@).contains(token_key(#[trigger] h[i]))
        &&& texts(info.from@).contains(from_key(h[i]))
        &&& texts(info.to@).contains(to_key(h[i]))
    } by {
        assert(all_tokens(h)[i] == token_key(h[i]));
        assert(all_froms(h)[i] == from_key(h[i]));
        assert(all_tos(h)[i] == to_key(h[i]));
        assert(all_tokens(h).contains(token_key(h[i])));
        assert(all_froms(h).contains(from_key(h[i])));
        assert(all_tos(h).contains(to_key(h[i])));
    }
}

/// The position of the first string of `v` equal to `s`.
fn position_of_text(v: &Vec<String>, s: &String) -> (res: Option<usize>)
    ensures
        match res {
            Some(i) => i < v.len() && v[i as int]@ == s@ && forall|j: int|
                0 <= j < i ==> (#[trigger] v[j])@ != s@,
            None => forall|j: int| 0 <= j < v.len() ==> (#[trigger] v[j])@ != s@,
        },
        texts(v@).contains(s@) ==> res is Some,
{
    let mut i: usize = 0;
    while i < v.len()
        invariant
            i <= v.len(),
            forall|j: int| 0 <= j < i ==> (#[trigger] v[j])@ != s@,
        decreases v.len() - i,
    {
        if v[i] == *s {
            return Some(i);
        }
        i = i + 1;
    }
    assert forall|j: int| 0 <= j < texts(v@).len() implies texts(v@)[j] != s@ by {
        assert(v[j]@ != s@);
    }
    None
}

/// The position of the first token of `v` with contract `a`.
fn position_of_contract(v: &Vec<TokenData>, a: &Address) -> (res: Option<usize>)
    ensures
        match res {
            Some(i) => i < v.len() && v[i as int].contract_address@ == a@ && forall|j: int|
                0 <= j < i ==> (#[trigger] v[j]).contract_address@ != a@,
            None => forall|j: int| 0 <= j < v.len() ==> (#[trigger] v[j]).contract_address@ != a@,
        },
        forall|name: Seq<char>| token_views(v@).contains((a@, name)) ==> res is Some,
{
    let mut i: usize = 0;
    while i < v.len()
        invariant
            i <= v.len(),
            forall|j: int| 0 <= j < i ==> (#[trigger] v[j]).contract_address@ != a@,
        decreases v.len() - i,
    {
        if v[i].contract_address.same(a) {
            return Some(i);
        }
        i = i + 1;
    }
    assert forall|name: Seq<char>| !token_views(v@).contains((a@, name)) by {
        assert forall|j: int| 0 <= j < token_views(v@).len() implies token_views(v@)[j] != (
        a@,
            name,
        ) by {
            assert(v[j].contract_address@ != a@);
        }
    }
    None
}

/// Whether `v` holds the token `t`.
fn holds_token(v: &Vec<TokenData>, t: &TokenData) -> (res: bool)
    ensures
        res == token_views(v@).contains(t@),
{
    let mut i: usize = 0;
    while i < v.len()
        invariant
            i <= v.len(),
            forall|j: int| 0 <= j < i ==> (#[trigger] v[j])@ != t@,
        decreases v.len() - i,
    {
        if v[i].contract_address.same(&t.contract_address) && v[i].token_name == t.token_name {
            assert(token_views(v@)[i as int] == t@);
            return true;
        }
        i = i + 1;
    }
    assert forall|j: int| 0 <= j < token_views(v@).len() implies token_views(v@)[j] != t@ by {
        assert(v[j]@ != t@);
    }
    false
}

/// Appends `s` to `v` unless `v` holds the same text.
fn push_new_text(v: &mut Vec<String>, s: String)
    ensures
        texts(final(v)@) == (if texts(old(v)@).contains(s@) {
            texts(old(v)@)
        } else {
            texts(old(v)@).push(s@)
        }),
{
    match position_of_text(v, &s) {
        Some(i) => {
            assert(texts(v@)[i as int] == s@);
        },
        None => {
            assert forall|j: int| 0 <= j < texts(v@).len() implies texts(v@)[j] != s@ by {
                assert(v[j]@ != s@);
            }
            let ghost before = v@;
            v.push(s);
            assert(texts(v@) =~= texts(before).push(s@));
        },
    }
}

impl ERC20History {
    /// The distinct tokens of the history, in the order in which they first
    /// occur.
    pub fn unique_tokens(&self) -> (res: Vec<TokenData>)
        ensures
            token_views(res@) == distinct(all_tokens(self.history@)),
    {
        let h = &self.history;
        let mut res: Vec<TokenData> = Vec::new();
        let mut i: usize = 0;
        while i < h.len()
            invariant
                i <= h.len(),
                token_views(res@) == distinct(all_tokens(h@).take(i as int)),
            decreases h.len() - i,
        {
            proof {
                lemma_distinct_step(all_tokens(h@), i as int);
            }
            let t = TokenData {
                contract_address: h[i].contract_address,
                token_name: h[i].token_name.clone(),
            };
            if !holds_token(&res, &t) {
                let ghost before = res@;
                res.push(t);
                assert(token_views(res@) =~= token_views(before).push(t@));
            }
            i = i + 1;
        }
        assert(all_tokens(h@).take(h.len() as int) =~= all_tokens(h@));
        res
    }

    /// The distinct senders of the history as displayed (`0xabcd…ef01`),
    /// in the order in which they first occur.
    pub fn unique_froms(&self) -> (res: Vec<String>)
        ensures
            texts(res@) == distinct(all_froms(self.history@)),
    {
        let h = &self.history;
        let mut res: Vec<String> = Vec::new();
        let mut i: usize = 0;
        while i < h.len()
            invariant
                i <= h.len(),
                texts(res@) == distinct(all_froms(h@).take(i as int)),
            decreases h.len() - i,
        {
            proof {
                lemma_distinct_step(all_froms(h@), i as int);
            }
            push_new_text(&mut res, address_to_string(&h[i].from));
            i = i + 1;
        }
        assert(all_froms(h@).take(h.len() as int) =~= all_froms(h@));
        res
    }

    /// The distinct recipients of the history as displayed, in the order in
    /// which they first occur.
    pub fn unique_to(&self) -> (res: Vec<String>)
        requires
            all_have_recipient(self.history@),
        ensures
            texts(res@) == distinct(all_tos(self.history@)),
    {
        let h = &self.history;
        let mut res: Vec<String> = Vec::new();
        let mut i: usize = 0;
        while i < h.len()
            invariant
                i <= h.len(),
                all_have_recipient(h@),
                texts(res@) == distinct(all_tos(h@).take(i as int)),
            decreases h.len() - i,
        {
            proof {
                lemma_distinct_step(all_tos(h@), i as int);
            }
            let to = h[i].to.unwrap();
            push_new_text(&mut res, address_to_string(&to));
            i = i + 1;
        }
        assert(all_tos(h@).take(h.len() as int) =~= all_tos(h@));
        res
    }

    /// The axes of the parallel-coordinates chart: the distinct tokens,
    /// senders and recipients.
    pub fn get_info(&self) -> (info: Information)
        requires
            all_have_recipient(self.history@),
        ensures
            info_of(info, self.history@),
    {
        Information { tokens: self.unique_tokens(), from: self.unique_froms(), to: self.unique_to() }
    }

    /// One record per transfer, in order, for the parallel-sets chart.
    pub fn get_parallel_set_data(&self) -> (res: Vec<Sank>)
        requires
            all_have_recipient(self.history@),
            self.history.len() > 0 ==> self.address is Some,
        ensures
            res.len() == self.history.len(),
            forall|i: int|
                0 <= i < res.len() ==> sank_of(
                    #[trigger] res[i],
                    self.history[i],
                    self.address->0@,
                ),
    {
        let h = &self.history;
        let mut res: Vec<Sank> = Vec::new();
        let mut i: usize = 0;
        while i < h.len()
            invariant
                i <= h.len(),
                res.len() == i,
                all_have_recipient(h@),
                h.len() > 0 ==> self.address is Some,
                h == &self.history,
                forall|k: int| 0 <= k < i ==> sank_of(#[trigger] res[k], h[k], self.address->0@),
            decreases h.len() - i,
        {
            let tx = &h[i];
            assert(all_have_recipient(h@) ==> h@[i as int].to is Some);
            let viewer = self.address.unwrap();
            let record = Sank {
                token_name: tx.token_name.clone(),
                timestamp: tx.time_stamp.clone(),
                from: tx.from,
                to: tx.to.unwrap(),
                received: tx.to.unwrap().same(&viewer),
                value: String::from_str("1"),
            };
            res.push(record);
            i = i + 1;
        }
        res
    }

    /// One record per transfer, in order, for the parallel-coordinates
    /// chart, with the axes that its positions refer to.
    pub fn get_parallel_coordinates_data(&self) -> (res: (Vec<Tick>, Information))
        requires
            all_have_recipient(self.history@),
            self.history.len() > 0 ==> self.address is Some,
            forall|i: int| 0 <= i < self.history.len() ==> has_units(#[trigger] self.history[i]),
        ensures
            info_of(res.1, self.history@),
            res.0.len() == self.history.len(),
            forall|i: int|
                0 <= i < res.0.len() ==> tick_of(
                    #[trigger] res.0[i],
                    self.history[i],
                    res.1,
                    self.address->0@,
                ),
    {
        let h = &self.history;
        let info = self.get_info();
        proof {
            every_transfer_is_on_the_axes(h@, info);
        }
        let mut ticks: Vec<Tick> = Vec::new();
        let mut i: usize = 0;
        while i < h.len()
            invariant
                i <= h.len(),
                ticks.len() == i,
                h == &self.history,
                all_have_recipient(h@),
                h.len() > 0 ==> self.address is Some,
                forall|k: int| 0 <= k < h.len() ==> has_units(#[trigger] h[k]),
                info_of(info, h@),
                forall|k: int|
                    0 <= k < h.len() ==> {
                        &&& token_views(info.tokens@).contains(token_key(#[trigger] h[k]))
                        &&& texts(info.from@).contains(from_key(h[k]))
                        &&& texts(info.to@).contains(to_key(h[k]))
                    },
                forall|k: int|
                    0 <= k < i ==> tick_of(#[trigger] ticks[k], h[k], info, self.address->0@),
            decreases h.len() - i,
        {
            let tx = &h[i];
            assert(h@[i as int].to is Some);

            assert(token_views(info.tokens@).contains(token_key(h@[i as int])));
            let contract = position_of_contract(&info.tokens, &tx.contract_address);
            let from_text = address_to_string(&tx.from);
            let from = position_of_text(&info.from, &from_text);
            let recipient = tx.to.unwrap();
            let to_text = address_to_string(&recipient);
            let to = position_of_text(&info.to, &to_text);
            let decimals = parse_i32(tx.token_decimal.as_str()).unwrap();
            let amount = format_units(&tx.value, decimals + 4).unwrap();
            let viewer = self.address.unwrap();
            let tick = Tick {
                token_name: tx.token_name.clone(),
                contract_address: contract.unwrap(),
                timestamp: tx.time_stamp.clone(),
                from: from.unwrap(),
                to: to.unwrap(),
                amount,
                received: recipient.same(&viewer),
            };
            ticks.push(tick);
            i = i + 1;
        }
        (ticks, info)
    }
}

} // verus!
