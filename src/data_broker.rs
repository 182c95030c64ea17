//! The report model, its decoding from a document, and the accessors that
//! pick sections out of a decoded report.
use crate::decimal::{all_digits, decimal_of, digits_value, Dec};
use crate::xml::{
    child_named, children_from, close_of, element_end, field_text, find_child, find_children,
    text_at, toks_view, xml_tokens, xml_tokens_of, Tok, XmlToken,
};
use vstd::prelude::*;

verus! {

/// Why a report could not be had.
#[derive(Clone, Debug, PartialEq)]
pub enum DownloadError {
    /// The request itself failed (no connection, TLS, reset).
    Io(String),
    /// A body could not be read as the expected document.
    Decode(String),
    /// The service answered with a non-success status, and this body.
    Http(u16, String),
}

/// One blocking request to a URL, giving the body or a classified failure.
pub trait Downloader {
    fn download(&self, url: &str) -> Result<String, DownloadError>;
}

/// Text of the first child named `n` of the element spanning `a ..= e`;
/// empty when there is no such child.
pub open spec fn text_of(t: Seq<Tok>, a: int, e: int, n: Seq<char>) -> Seq<char> {
    match field_text(t, a, e, n) {
        Some(s) => s,
        None => seq![],
    }
}

/// Decimal held by the first child named `n`: zero when there is no such
/// child, `None` when its text is no decimal literal.
pub open spec fn dec_field(t: Seq<Tok>, a: int, e: int, n: Seq<char>) -> Option<(int, nat)> {
    match field_text(t, a, e, n) {
        Some(s) => decimal_of(s),
        None => Some((0int, 0nat)),
    }
}

pub open spec fn dec_is(x: Dec, v: Option<(int, nat)>) -> bool {
    v == Some(x@) && x.wf()
}

/// What `i32::from_str` makes of a text.
pub uninterp spec fn int_of(s: Seq<char>) -> Option<int>;

/// Relies on `i32::from_str`: an optional sign and decimal digits within the
/// range of `i32`; up to nine plain digits give that integer.
#[verifier::external_body]
fn parse_i32(s: &str) -> (r: Option<i32>)
    ensures
        r is Some ==> int_of(s@) == Some(r->Some_0 as int),
        r is None <==> int_of(s@) is None,
        (all_digits(s@) && 1 <= s@.len() <= 9) ==> r is Some && r->Some_0 as int == digits_value(
            s@,
        ),
{
    <i32 as std::str::FromStr>::from_str(s).ok()
}

/// Integer held by the first child named `n`: zero when there is no such
/// child, `None` when its text is no integer.
pub open spec fn int_field(t: Seq<Tok>, a: int, e: int, n: Seq<char>) -> Option<int> {
    match field_text(t, a, e, n) {
        Some(s) => int_of(s),
        None => Some(0int),
    }
}

fn text_field(toks: &Vec<XmlToken>, a: usize, e: usize, name: &str) -> (r: String)
    requires
        a < e < toks@.len(),
    ensures
        r@ == text_of(toks_view(toks@), a as int, e as int, name@),
{
    match find_child(toks, a, e, name) {
        Some((c, _)) => text_at(toks, c),
        None => String::new(),
    }
}

fn decimal_field(toks: &Vec<XmlToken>, a: usize, e: usize, name: &str) -> (r: Option<Dec>)
    requires
        a < e < toks@.len(),
    ensures
        r is Some ==> dec_is(r->Some_0, dec_field(toks_view(toks@), a as int, e as int, name@)),
        r is None <==> dec_field(toks_view(toks@), a as int, e as int, name@) is None,
{
    match find_child(toks, a, e, name) {
        Some((c, _)) => {
            let s = text_at(toks, c);
            Dec::parse(s.as_str())
        },
        None => Some(Dec::zero()),
    }
}

fn int_field_of(toks: &Vec<XmlToken>, a: usize, e: usize, name: &str) -> (r: Option<i32>)
    requires
        a < e < toks@.len(),
    ensures
        r is Some ==> int_field(toks_view(toks@), a as int, e as int, name@) == Some(
            r->Some_0 as int,
        ),
        r is None <==> int_field(toks_view(toks@), a as int, e as int, name@) is None,
{
    match find_child(toks, a, e, name) {
        Some((c, _)) => {
            let s = text_at(toks, c);
            parse_i32(s.as_str())
        },
        None => Some(0),
    }
}

/// The account a statement belongs to.
#[derive(Debug, PartialEq)]
pub struct AccountInformation {
    pub account_id: String,
    pub currency: String,
    pub name: String,
    pub primary_email: String,
}

/// One execution.
#[derive(Debug, PartialEq)]
pub struct Trade {
    pub account_id: String,
    pub currency: String,
    pub fx_rate_to_base: Dec,
    pub asset_category: String,
    pub symbol: String,
    pub description: String,
    pub conid: String,
    pub underlying_conid: String,
    pub underlying_symbol: String,
    pub multiplier: Dec,
    pub put_call: String,
    pub trade_date: String,
    pub quantity: Dec,
    pub proceeds: Dec,
    pub taxes: Dec,
    pub ib_commission: Dec,
    pub net_cash: Dec,
    pub open_close_indicator: String,
    pub notes: String,
}

/// One movement of cash (dividend, fee, interest, ...).
#[derive(Debug, PartialEq)]
pub struct CashTransaction {
    pub account_id: String,
    pub currency: String,
    pub fx_rate_to_base: Dec,
    pub asset_category: String,
    pub symbol: String,
    pub description: String,
    pub conid: String,
    pub multiplier: Dec,
    pub trade_date: String,
    pub date_time: String,
    pub amount: Dec,
    pub type_enum: String,
}

/// One holding at the end of the period.
#[derive(Debug, PartialEq)]
pub struct OpenPosition {
    pub account_id: String,
    pub currency: String,
    pub fx_rate_to_base: Dec,
    pub asset_category: String,
    pub symbol: String,
    pub description: String,
    pub position: Dec,
    pub mark_price: Dec,
    pub position_value_in_base: Dec,
    pub multiplier: Dec,
    pub cost_basis_price: Dec,
}

/// `x` holds the fields of the `AccountInformation` element spanning `a ..= e`.
pub open spec fn account_information_at(t: Seq<Tok>, a: int, e: int, x: AccountInformation) -> bool {
    &&& x.account_id@ == text_of(t, a, e, "accountId"@)
    &&& x.currency@ == text_of(t, a, e, "currency"@)
    &&& x.name@ == text_of(t, a, e, "name"@)
    &&& x.primary_email@ == text_of(t, a, e, "primaryEmail"@)
}

fn decode_account_information(toks: &Vec<XmlToken>, a: usize, e: usize) -> (r: AccountInformation)
    requires
        a < e < toks@.len(),
    ensures
        account_information_at(toks_view(toks@), a as int, e as int, r),
{
    AccountInformation {
        account_id: text_field(toks, a, e, "accountId"),
        currency: text_field(toks, a, e, "currency"),
        name: text_field(toks, a, e, "name"),
        primary_email: text_field(toks, a, e, "primaryEmail"),
    }
}

/// Every decimal field of the `Trade` element spanning `a ..= e` is absent or a valid literal.
pub open spec fn trade_ok(t: Seq<Tok>, a: int, e: int) -> bool {
    &&& dec_field(t, a, e, "fxRateToBase"@) is Some
    &&& dec_field(t, a, e, "multiplier"@) is Some
    &&& dec_field(t, a, e, "quantity"@) is Some
    &&& dec_field(t, a, e, "proceeds"@) is Some
    &&& dec_field(t, a, e, "taxes"@) is Some
    &&& dec_field(t, a, e, "ibCommission"@) is Some
    &&& dec_field(t, a, e, "netCash"@) is Some
}

/// `x` holds the fields of the `Trade` element spanning `a ..= e`.
pub open spec fn trade_at(t: Seq<Tok>, a: int, e: int, x: Trade) -> bool {
    &&& x.account_id@ == text_of(t, a, e, "accountId"@)
    &&& x.currency@ == text_of(t, a, e, "currency"@)
    &&& dec_is(x.fx_rate_to_base, dec_field(t, a, e, "fxRateToBase"@))
    &&& x.asset_category@ == text_of(t, a, e, "assetCategory"@)
    &&& x.symbol@ == text_of(t, a, e, "symbol"@)
    &&& x.description@ == text_of(t, a, e, "description"@)
    &&& x.conid@ == text_of(t, a, e, "conid"@)
    &&& x.underlying_conid@ == text_of(t, a, e, "underlyingConid"@)
    &&& x.underlying_symbol@ == text_of(t, a, e, "underlyingSymbol"@)
    &&& dec_is(x.multiplier, dec_field(t, a, e, "multiplier"@))
    &&& x.put_call@ == text_of(t, a, e, "putCall"@)
    &&& x.trade_date@ == text_of(t, a, e, "tradeDate"@)
    &&& dec_is(x.quantity, dec_field(t, a, e, "quantity"@))
    &&& dec_is(x.proceeds, dec_field(t, a, e, "proceeds"@))
    &&& dec_is(x.taxes, dec_field(t, a, e, "taxes"@))
    &&& dec_is(x.ib_commission, dec_field(t, a, e, "ibCommission"@))
    &&& dec_is(x.net_cash, dec_field(t, a, e, "netCash"@))
    &&& x.open_close_indicator@ == text_of(t, a, e, "openCloseIndicator"@)
    &&& x.notes@ == text_of(t, a, e, "notes"@)
}

fn decode_trade(toks: &Vec<XmlToken>, a: usize, e: usize) -> (r: Option<Trade>)
    requires
        a < e < toks@.len(),
    ensures
        r is Some <==> trade_ok(toks_view(toks@), a as int, e as int),
        r is Some ==> trade_at(toks_view(toks@), a as int, e as int, r->Some_0),
{
    let fx_rate_to_base = match decimal_field(toks, a, e, "fxRateToBase") {
        Some(v) => v,
        None => {
            return None;
        },
    };
    let multiplier = match decimal_field(toks, a, e, "multiplier") {
        Some(v) => v,
        None => {
            return None;
        },
    };
    let quantity = match decimal_field(toks, a, e, "quantity") {
        Some(v) => v,
        None => {
            return None;
        },
    };
    let proceeds = match decimal_field(toks, a, e, "proceeds") {
        Some(v) => v,
        None => {
            return None;
        },
    };
    let taxes = match decimal_field(toks, a, e, "taxes") {
        Some(v) => v,
        None => {
            return None;
        },
    };
    let ib_commission = match decimal_field(toks, a, e, "ibCommission") {
        Some(v) => v,
        None => {
            return None;
        },
    };
    let net_cash = match decimal_field(toks, a, e, "netCash") {
        Some(v) => v,
        None => {
            return None;
        },
    };
    Some(Trade {
        account_id: text_field(toks, a, e, "accountId"),
        currency: text_field(toks, a, e, "currency"),
        fx_rate_to_base,
        asset_category: text_field(toks, a, e, "assetCategory"),
        symbol: text_field(toks, a, e, "symbol"),
        description: text_field(toks, a, e, "description"),
        conid: text_field(toks, a, e, "conid"),
        underlying_conid: text_field(toks, a, e, "underlyingConid"),
        underlying_symbol: text_field(toks, a, e, "underlyingSymbol"),
        multiplier,
        put_call: text_field(toks, a, e, "putCall"),
        trade_date: text_field(toks, a, e, "tradeDate"),
        quantity,
        proceeds,
        taxes,
        ib_commission,
        net_cash,
        open_close_indicator: text_field(toks, a, e, "openCloseIndicator"),
        notes: text_field(toks, a, e, "notes"),
    })
}

/// Every decimal field of the `CashTransaction` element spanning `a ..= e` is absent or a valid
/// literal.
pub open spec fn cash_transaction_ok(t: Seq<Tok>, a: int, e: int) -> bool {
    &&& dec_field(t, a, e, "fxRateToBase"@) is Some
    &&& dec_field(t, a, e, "multiplier"@) is Some
    &&& dec_field(t, a, e, "amount"@) is Some
}

/// `x` holds the fields of the `CashTransaction` element spanning `a ..= e`.
pub open spec fn cash_transaction_at(t: Seq<Tok>, a: int, e: int, x: CashTransaction) -> bool {
    &&& x.account_id@ == text_of(t, a, e, "accountId"@)
    &&& x.currency@ == text_of(t, a, e, "currency"@)
    &&& dec_is(x.fx_rate_to_base, dec_field(t, a, e, "fxRateToBase"@))
    &&& x.asset_category@ == text_of(t, a, e, "assetCategory"@)
    &&& x.symbol@ == text_of(t, a, e, "symbol"@)
    &&& x.description@ == text_of(t, a, e, "description"@)
    &&& x.conid@ == text_of(t, a, e, "conid"@)
    &&& dec_is(x.multiplier, dec_field(t, a, e, "multiplier"@))
    &&& x.trade_date@ == text_of(t, a, e, "tradeDate"@)
    &&& x.date_time@ == text_of(t, a, e, "dateTime"@)
    &&& dec_is(x.amount, dec_field(t, a, e, "amount"@))
    &&& x.type_enum@ == text_of(t, a, e, "type"@)
}

fn decode_cash_transaction(toks: &Vec<XmlToken>, a: usize, e: usize) -> (r: Option<CashTransaction>)
    requires
        a < e < toks@.len(),
    ensures
        r is Some <==> cash_transaction_ok(toks_view(toks@), a as int, e as int),
        r is Some ==> cash_transaction_at(toks_view(toks@), a as int, e as int, r->Some_0),
{
    let fx_rate_to_base = match decimal_field(toks, a, e, "fxRateToBase") {
        Some(v) => v,
        None => {
            return None;
        },
    };
    let multiplier = match decimal_field(toks, a, e, "multiplier") {
        Some(v) => v,
        None => {
            return None;
        },
    };
    let amount = match decimal_field(toks, a, e, "amount") {
        Some(v) => v,
        None => {
            return None;
        },
    };
    Some(CashTransaction {
        account_id: text_field(toks, a, e, "accountId"),
        currency: text_field(toks, a, e, "currency"),
        fx_rate_to_base,
        asset_category: text_field(toks, a, e, "assetCategory"),
        symbol: text_field(toks, a, e, "symbol"),
        description: text_field(toks, a, e, "description"),
        conid: text_field(toks, a, e, "conid"),
        multiplier,
        trade_date: text_field(toks, a, e, "tradeDate"),
        date_time: text_field(toks, a, e, "dateTime"),
        amount,
        type_enum: text_field(toks, a, e, "type"),
    })
}

/// Every decimal field of the `OpenPosition` element spanning `a ..= e` is absent or a valid
/// literal.
pub open spec fn open_position_ok(t: Seq<Tok>, a: int, e: int) -> bool {
    &&& dec_field(t, a, e, "fxRateToBase"@) is Some
    &&& dec_field(t, a, e, "position"@) is Some
    &&& dec_field(t, a, e, "markPrice"@) is Some
    &&& dec_field(t, a, e, "positionValueInBase"@) is Some
    &&& dec_field(t, a, e, "multiplier"@) is Some
    &&& dec_field(t, a, e, "costBasisPrice"@) is Some
}

/// `x` holds the fields of the `OpenPosition` element spanning `a ..= e`.
pub open spec fn open_position_at(t: Seq<Tok>, a: int, e: int, x: OpenPosition) -> bool {
    &&& x.account_id@ == text_of(t, a, e, "accountId"@)
    &&& x.currency@ == text_of(t, a, e, "currency"@)
    &&& dec_is(x.fx_rate_to_base, dec_field(t, a, e, "fxRateToBase"@))
    &&& x.asset_category@ == text_of(t, a, e, "assetCategory"@)
    &&& x.symbol@ == text_of(t, a, e, "symbol"@)
    &&& x.description@ == text_of(t, a, e, "description"@)
    &&& dec_is(x.position, dec_field(t, a, e, "position"@))
    &&& dec_is(x.mark_price, dec_field(t, a, e, "markPrice"@))
    &&& dec_is(x.position_value_in_base, dec_field(t, a, e, "positionValueInBase"@))
    &&& dec_is(x.multiplier, dec_field(t, a, e, "multiplier"@))
    &&& dec_is(x.cost_basis_price, dec_field(t, a, e, "costBasisPrice"@))
}

fn decode_open_position(toks: &Vec<XmlToken>, a: usize, e: usize) -> (r: Option<OpenPosition>)
    requires
        a < e < toks@.len(),
    ensures
        r is Some <==> open_position_ok(toks_view(toks@), a as int, e as int),
        r is Some ==> open_position_at(toks_view(toks@), a as int, e as int, r->Some_0),
{
    let fx_rate_to_base = match decimal_field(toks, a, e, "fxRateToBase") {
        Some(v) => v,
        None => {
            return None;
        },
    };
    let position = match decimal_field(toks, a, e, "position") {
        Some(v) => v,
        None => {
            return None;
        },
    };
    let mark_price = match decimal_field(toks, a, e, "markPrice") {
        Some(v) => v,
        None => {
            return None;
        },
    };
    let position_value_in_base = match decimal_field(toks, a, e, "positionValueInBase") {
        Some(v) => v,
        None => {
            return None;
        },
    };
    let multiplier = match decimal_field(toks, a, e, "multiplier") {
        Some(v) => v,
        None => {
            return None;
        },
    };
    let cost_basis_price = match decimal_field(toks, a, e, "costBasisPrice") {
        Some(v) => v,
        None => {
            return None;
        },
    };
    Some(OpenPosition {
        account_id: text_field(toks, a, e, "accountId"),
        currency: text_field(toks, a, e, "currency"),
        fx_rate_to_base,
        asset_category: text_field(toks, a, e, "assetCategory"),
        symbol: text_field(toks, a, e, "symbol"),
        description: text_field(toks, a, e, "description"),
        position,
        mark_price,
        position_value_in_base,
        multiplier,
        cost_basis_price,
    })
}

/// The `OpenPosition` entries of a `OpenPositions` section, in document order.
#[derive(Debug, PartialEq)]
pub struct OpenPositions {
    pub open_position: Vec<OpenPosition>,
}

/// The `Trade` entries of a `Trades` section, in document order.
#[derive(Debug, PartialEq)]
pub struct Trades {
    pub trade: Vec<Trade>,
}

/// The `CashTransaction` entries of a `CashTransactions` section, in document order.
#[derive(Debug, PartialEq)]
pub struct CashTransactions {
    pub cash_transaction: Vec<CashTransaction>,
}

/// Every `OpenPosition` of the `OpenPositions` element spanning `a ..= e` decodes.
pub open spec fn open_positions_ok(t: Seq<Tok>, a: int, e: int) -> bool {
    forall|i: int|
        0 <= i < children_from(t, a + 1, e, "OpenPosition"@).len() ==> #[trigger] open_position_ok(
            t,
            children_from(t, a + 1, e, "OpenPosition"@)[i],
            close_of(t, children_from(t, a + 1, e, "OpenPosition"@)[i]),
        )
}

/// `x` holds, in document order, the `OpenPosition` entries of the `OpenPositions` element spanning
/// `a ..= e`.
pub open spec fn open_positions_at(t: Seq<Tok>, a: int, e: int, x: OpenPositions) -> bool {
    &&& x.open_position@.len() == children_from(t, a + 1, e, "OpenPosition"@).len()
    &&& forall|i: int|
        0 <= i < children_from(t, a + 1, e, "OpenPosition"@).len() ==> #[trigger] open_position_at(
            t,
            children_from(t, a + 1, e, "OpenPosition"@)[i],
            close_of(t, children_from(t, a + 1, e, "OpenPosition"@)[i]),
            x.open_position@[i],
        )
}

/// The `OpenPositions` child of the element spanning `a ..= e`, where there is one, decodes.
pub open spec fn opt_open_positions_ok(t: Seq<Tok>, a: int, e: int) -> bool {
    let c = child_named(t, a, e, "OpenPositions"@);
    c < 0 || open_positions_ok(t, c, close_of(t, c))
}

/// `x` is absent exactly when the element spanning `a ..= e` has no `OpenPositions` child, and
/// holds that child otherwise.
pub open spec fn opt_open_positions_at(t: Seq<Tok>, a: int, e: int, x: Option<OpenPositions>) -> bool {
    let c = child_named(t, a, e, "OpenPositions"@);
    if c < 0 {
        x is None
    } else {
        x is Some && open_positions_at(t, c, close_of(t, c), x->Some_0)
    }
}

fn decode_open_positions(toks: &Vec<XmlToken>, a: usize, e: usize) -> (r: Option<OpenPositions>)
    requires
        a < e < toks@.len(),
    ensures
        r is Some <==> open_positions_ok(toks_view(toks@), a as int, e as int),
        r is Some ==> open_positions_at(toks_view(toks@), a as int, e as int, r->Some_0),
{
    let ghost t = toks_view(toks@);
    let ghost cs = children_from(t, a as int + 1, e as int, "OpenPosition"@);
    let kids = find_children(toks, a, e, "OpenPosition");
    let mut out: Vec<OpenPosition> = Vec::new();
    let mut i: usize = 0;
    while i < kids.len()
        invariant
            i <= kids@.len(),
            t == toks_view(toks@),
            e < toks@.len(),
            kids@.len() == cs.len(),
            cs == children_from(t, a as int + 1, e as int, "OpenPosition"@),
            forall|j: int|
                0 <= j < kids@.len() ==> {
                    let (c, d) = #[trigger] kids@[j];
                    &&& c as int == cs[j]
                    &&& d as int == close_of(t, c as int)
                    &&& c < d < e
                },
            out@.len() == i,
            forall|j: int| 0 <= j < i ==> #[trigger] open_position_ok(t, cs[j], close_of(t, cs[j])),
            forall|j: int| 0 <= j < i ==> #[trigger] open_position_at(t, cs[j], close_of(t, cs[j]), out@[j]),
        decreases kids@.len() - i,
    {
        let (c, d) = kids[i];
        assert(kids@[i as int] == (c, d));
        match decode_open_position(toks, c, d) {
            Some(x) => {
                out.push(x);
            },
            None => {
                assert(!open_position_ok(t, cs[i as int], close_of(t, cs[i as int])));
                return None;
            },
        }
        i = i + 1;
    }
    Some(OpenPositions { open_position: out })
}

fn decode_opt_open_positions(toks: &Vec<XmlToken>, a: usize, e: usize) -> (r: Option<Option<OpenPositions>>)
    requires
        a < e < toks@.len(),
    ensures
        r is Some <==> opt_open_positions_ok(toks_view(toks@), a as int, e as int),
        r is Some ==> opt_open_positions_at(toks_view(toks@), a as int, e as int, r->Some_0),
{
    match find_child(toks, a, e, "OpenPositions") {
        Some((c, d)) => match decode_open_positions(toks, c, d) {
            Some(x) => Some(Some(x)),
            None => None,
        },
        None => Some(None),
    }
}

/// Every `Trade` of the `Trades` element spanning `a ..= e` decodes.
pub open spec fn trades_ok(t: Seq<Tok>, a: int, e: int) -> bool {
    forall|i: int|
        0 <= i < children_from(t, a + 1, e, "Trade"@).len() ==> #[trigger] trade_ok(
            t,
            children_from(t, a + 1, e, "Trade"@)[i],
            close_of(t, children_from(t, a + 1, e, "Trade"@)[i]),
        )
}

/// `x` holds, in document order, the `Trade` entries of the `Trades` element spanning `a ..= e`.
pub open spec fn trades_at(t: Seq<Tok>, a: int, e: int, x: Trades) -> bool {
    &&& x.trade@.len() == children_from(t, a + 1, e, "Trade"@).len()
    &&& forall|i: int|
        0 <= i < children_from(t, a + 1, e, "Trade"@).len() ==> #[trigger] trade_at(
            t,
            children_from(t, a + 1, e, "Trade"@)[i],
            close_of(t, children_from(t, a + 1, e, "Trade"@)[i]),
            x.trade@[i],
        )
}

/// The `Trades` child of the element spanning `a ..= e`, where there is one, decodes.
pub open spec fn opt_trades_ok(t: Seq<Tok>, a: int, e: int) -> bool {
    let c = child_named(t, a, e, "Trades"@);
    c < 0 || trades_ok(t, c, close_of(t, c))
}

/// `x` is absent exactly when the element spanning `a ..= e` has no `Trades` child, and holds that
/// child otherwise.
pub open spec fn opt_trades_at(t: Seq<Tok>, a: int, e: int, x: Option<Trades>) -> bool {
    let c = child_named(t, a, e, "Trades"@);
    if c < 0 {
        x is None
    } else {
        x is Some && trades_at(t, c, close_of(t, c), x->Some_0)
    }
}

fn decode_trades(toks: &Vec<XmlToken>, a: usize, e: usize) -> (r: Option<Trades>)
    requires
        a < e < toks@.len(),
    ensures
        r is Some <==> trades_ok(toks_view(toks@), a as int, e as int),
        r is Some ==> trades_at(toks_view(toks@), a as int, e as int, r->Some_0),
{
    let ghost t = toks_view(toks@);
    let ghost cs = children_from(t, a as int + 1, e as int, "Trade"@);
    let kids = find_children(toks, a, e, "Trade");
    let mut out: Vec<Trade> = Vec::new();
    let mut i: usize = 0;
    while i < kids.len()
        invariant
            i <= kids@.len(),
            t == toks_view(toks@),
            e < toks@.len(),
            kids@.len() == cs.len(),
            cs == children_from(t, a as int + 1, e as int, "Trade"@),
            forall|j: int|
                0 <= j < kids@.len() ==> {
                    let (c, d) = #[trigger] kids@[j];
                    &&& c as int == cs[j]
                    &&& d as int == close_of(t, c as int)
                    &&& c < d < e
                },
            out@.len() == i,
            forall|j: int| 0 <= j < i ==> #[trigger] trade_ok(t, cs[j], close_of(t, cs[j])),
            forall|j: int| 0 <= j < i ==> #[trigger] trade_at(t, cs[j], close_of(t, cs[j]), out@[j]),
        decreases kids@.len() - i,
    {
        let (c, d) = kids[i];
        assert(kids@[i as int] == (c, d));
        match decode_trade(toks, c, d) {
            Some(x) => {
                out.push(x);
            },
            None => {
                assert(!trade_ok(t, cs[i as int], close_of(t, cs[i as int])));
                return None;
            },
        }
        i = i + 1;
    }
    Some(Trades { trade: out })
}

fn decode_opt_trades(toks: &Vec<XmlToken>, a: usize, e: usize) -> (r: Option<Option<Trades>>)
    requires
        a < e < toks@.len(),
    ensures
        r is Some <==> opt_trades_ok(toks_view(toks@), a as int, e as int),
        r is Some ==> opt_trades_at(toks_view(toks@), a as int, e as int, r->Some_0),
{
    match find_child(toks, a, e, "Trades") {
        Some((c, d)) => match decode_trades(toks, c, d) {
            Some(x) => Some(Some(x)),
            None => None,
        },
        None => Some(None),
    }
}

/// Every `CashTransaction` of the `CashTransactions` element spanning `a ..= e` decodes.
pub open spec fn cash_transactions_ok(t: Seq<Tok>, a: int, e: int) -> bool {
    forall|i: int|
        0 <= i < children_from(t, a + 1, e, "CashTransaction"@).len() ==> #[trigger] cash_transaction_ok(
            t,
            children_from(t, a + 1, e, "CashTransaction"@)[i],
            close_of(t, children_from(t, a + 1, e, "CashTransaction"@)[i]),
        )
}

/// `x` holds, in document order, the `CashTransaction` entries of the `CashTransactions` element
/// spanning `a ..= e`.
pub open spec fn cash_transactions_at(t: Seq<Tok>, a: int, e: int, x: CashTransactions) -> bool {
    &&& x.cash_transaction@.len() == children_from(t, a + 1, e, "CashTransaction"@).len()
    &&& forall|i: int|
        0 <= i < children_from(t, a + 1, e, "CashTransaction"@).len() ==> #[trigger] cash_transaction_at(
            t,
            children_from(t, a + 1, e, "CashTransaction"@)[i],
            close_of(t, children_from(t, a + 1, e, "CashTransaction"@)[i]),
            x.cash_transaction@[i],
        )
}

/// The `CashTransactions` child of the element spanning `a ..= e`, where there is one, decodes.
pub open spec fn opt_cash_transactions_ok(t: Seq<Tok>, a: int, e: int) -> bool {
    let c = child_named(t, a, e, "CashTransactions"@);
    c < 0 || cash_transactions_ok(t, c, close_of(t, c))
}

/// `x` is absent exactly when the element spanning `a ..= e` has no `CashTransactions` child, and
/// holds that child otherwise.
pub open spec fn opt_cash_transactions_at(t: Seq<Tok>, a: int, e: int, x: Option<CashTransactions>) -> bool {
    let c = child_named(t, a, e, "CashTransactions"@);
    if c < 0 {
        x is None
    } else {
        x is Some && cash_transactions_at(t, c, close_of(t, c), x->Some_0)
    }
}

fn decode_cash_transactions(toks: &Vec<XmlToken>, a: usize, e: usize) -> (r: Option<CashTransactions>)
    requires
        a < e < toks@.len(),
    ensures
        r is Some <==> cash_transactions_ok(toks_view(toks@), a as int, e as int),
        r is Some ==> cash_transactions_at(toks_view(toks@), a as int, e as int, r->Some_0),
{
    let ghost t = toks_view(toks@);
    let ghost cs = children_from(t, a as int + 1, e as int, "CashTransaction"@);
    let kids = find_children(toks, a, e, "CashTransaction");
    let mut out: Vec<CashTransaction> = Vec::new();
    let mut i: usize = 0;
    while i < kids.len()
        invariant
            i <= kids@.len(),
            t == toks_view(toks@),
            e < toks@.len(),
            kids@.len() == cs.len(),
            cs == children_from(t, a as int + 1, e as int, "CashTransaction"@),
            forall|j: int|
                0 <= j < kids@.len() ==> {
                    let (c, d) = #[trigger] kids@[j];
                    &&& c as int == cs[j]
                    &&& d as int == close_of(t, c as int)
                    &&& c < d < e
                },
            out@.len() == i,
            forall|j: int| 0 <= j < i ==> #[trigger] cash_transaction_ok(t, cs[j], close_of(t, cs[j])),
            forall|j: int| 0 <= j < i ==> #[trigger] cash_transaction_at(t, cs[j], close_of(t, cs[j]), out@[j]),
        decreases kids@.len() - i,
    {
        let (c, d) = kids[i];
        assert(kids@[i as int] == (c, d));
        match decode_cash_transaction(toks, c, d) {
            Some(x) => {
                out.push(x);
            },
            None => {
                assert(!cash_transaction_ok(t, cs[i as int], close_of(t, cs[i as int])));
                return None;
            },
        }
        i = i + 1;
    }
    Some(CashTransactions { cash_transaction: out })
}

fn decode_opt_cash_transactions(toks: &Vec<XmlToken>, a: usize, e: usize) -> (r: Option<Option<CashTransactions>>)
    requires
        a < e < toks@.len(),
    ensures
        r is Some <==> opt_cash_transactions_ok(toks_view(toks@), a as int, e as int),
        r is Some ==> opt_cash_transactions_at(toks_view(toks@), a as int, e as int, r->Some_0),
{
    match find_child(toks, a, e, "CashTransactions") {
        Some((c, d)) => match decode_cash_transactions(toks, c, d) {
            Some(x) => Some(Some(x)),
            None => None,
        },
        None => Some(None),
    }
}

/// One account's statement over one period.
#[derive(Debug, PartialEq)]
pub struct FlexStatement {
    pub account_id: String,
    pub from_date: String,
    pub to_date: String,
    pub period: String,
    pub account_information: Option<AccountInformation>,
    pub open_positions: Option<OpenPositions>,
    pub trades: Option<Trades>,
    pub cash_transactions: Option<CashTransactions>,
}

/// The statements of a report and the count the service gives for them.
#[derive(Debug, PartialEq)]
pub struct FlexStatements {
    pub count: i32,
    pub flex_statement: Vec<FlexStatement>,
}

/// A decoded report.
#[derive(Debug, PartialEq)]
pub struct FlexQueryResponse {
    pub query_name: String,
    pub flex_statements: Option<FlexStatements>,
}

/// The service's answer to a report request: whether it was accepted, the
/// code to quote when fetching, and where to fetch.
#[derive(Debug, PartialEq)]
pub struct FlexStatementResponse {
    pub status: String,
    pub reference_code: String,
    pub url: String,
}

/// Every section of the `FlexStatement` element spanning `a ..= e` decodes.
pub open spec fn statement_ok(t: Seq<Tok>, a: int, e: int) -> bool {
    &&& opt_open_positions_ok(t, a, e)
    &&& opt_trades_ok(t, a, e)
    &&& opt_cash_transactions_ok(t, a, e)
}

/// `x` holds the `FlexStatement` element spanning `a ..= e`.
pub open spec fn statement_at(t: Seq<Tok>, a: int, e: int, x: FlexStatement) -> bool {
    let c = child_named(t, a, e, "AccountInformation"@);
    &&& x.account_id@ == text_of(t, a, e, "accountId"@)
    &&& x.from_date@ == text_of(t, a, e, "fromDate"@)
    &&& x.to_date@ == text_of(t, a, e, "toDate"@)
    &&& x.period@ == text_of(t, a, e, "period"@)
    &&& if c < 0 {
        x.account_information is None
    } else {
        x.account_information is Some && account_information_at(
            t,
            c,
            close_of(t, c),
            x.account_information->Some_0,
        )
    }
    &&& opt_open_positions_at(t, a, e, x.open_positions)
    &&& opt_trades_at(t, a, e, x.trades)
    &&& opt_cash_transactions_at(t, a, e, x.cash_transactions)
}

fn decode_statement(toks: &Vec<XmlToken>, a: usize, e: usize) -> (r: Option<FlexStatement>)
    requires
        a < e < toks@.len(),
    ensures
        r is Some <==> statement_ok(toks_view(toks@), a as int, e as int),
        r is Some ==> statement_at(toks_view(toks@), a as int, e as int, r->Some_0),
{
    let open_positions = match decode_opt_open_positions(toks, a, e) {
        Some(v) => v,
        None => {
            return None;
        },
    };
    let trades = match decode_opt_trades(toks, a, e) {
        Some(v) => v,
        None => {
            return None;
        },
    };
    let cash_transactions = match decode_opt_cash_transactions(toks, a, e) {
        Some(v) => v,
        None => {
            return None;
        },
    };
    let account_information = match find_child(toks, a, e, "AccountInformation") {
        Some((c, d)) => Some(decode_account_information(toks, c, d)),
        None => None,
    };
    Some(
        FlexStatement {
            account_id: text_field(toks, a, e, "accountId"),
            from_date: text_field(toks, a, e, "fromDate"),
            to_date: text_field(toks, a, e, "toDate"),
            period: text_field(toks, a, e, "period"),
            account_information,
            open_positions,
            trades,
            cash_transactions,
        },
    )
}

/// The count and every `FlexStatement` of the `FlexStatements` element
/// spanning `a ..= e` decode.
pub open spec fn statements_ok(t: Seq<Tok>, a: int, e: int) -> bool {
    let cs = children_from(t, a + 1, e, "FlexStatement"@);
    &&& int_field(t, a, e, "count"@) is Some
    &&& forall|i: int| 0 <= i < cs.len() ==> #[trigger] statement_ok(t, cs[i], close_of(t, cs[i]))
}

/// `x` holds the count and, in document order, the statements of the
/// `FlexStatements` element spanning `a ..= e`.
pub open spec fn statements_at(t: Seq<Tok>, a: int, e: int, x: FlexStatements) -> bool {
    let cs = children_from(t, a + 1, e, "FlexStatement"@);
    &&& int_field(t, a, e, "count"@) == Some(x.count as int)
    &&& x.flex_statement@.len() == cs.len()
    &&& forall|i: int|
        0 <= i < cs.len() ==> #[trigger] statement_at(
            t,
            cs[i],
            close_of(t, cs[i]),
            x.flex_statement@[i],
        )
}

fn decode_statements(toks: &Vec<XmlToken>, a: usize, e: usize) -> (r: Option<FlexStatements>)
    requires
        a < e < toks@.len(),
    ensures
        r is Some <==> statements_ok(toks_view(toks@), a as int, e as int),
        r is Some ==> statements_at(toks_view(toks@), a as int, e as int, r->Some_0),
{
    let ghost t = toks_view(toks@);
    let ghost cs = children_from(t, a as int + 1, e as int, "FlexStatement"@);
    let count = match int_field_of(toks, a, e, "count") {
        Some(n) => n,
        None => {
            return None;
        },
    };
    let kids = find_children(toks, a, e, "FlexStatement");
    let mut out: Vec<FlexStatement> = Vec::new();
    let mut i: usize = 0;
    while i < kids.len()
        invariant
            i <= kids@.len(),
            t == toks_view(toks@),
            e < toks@.len(),
            kids@.len() == cs.len(),
            cs == children_from(t, a as int + 1, e as int, "FlexStatement"@),
            forall|j: int|
                0 <= j < kids@.len() ==> {
                    let (c, d) = #[trigger] kids@[j];
                    &&& c as int == cs[j]
                    &&& d as int == close_of(t, c as int)
                    &&& c < d < e
                },
            out@.len() == i,
            forall|j: int| 0 <= j < i ==> #[trigger] statement_ok(t, cs[j], close_of(t, cs[j])),
            forall|j: int|
                0 <= j < i ==> #[trigger] statement_at(t, cs[j], close_of(t, cs[j]), out@[j]),
        decreases kids@.len() - i,
    {
        let (c, d) = kids[i];
        assert(kids@[i as int] == (c, d));
        match decode_statement(toks, c, d) {
            Some(x) => {
                out.push(x);
            },
            None => {
                assert(!statement_ok(t, cs[i as int], close_of(t, cs[i as int])));
                return None;
            },
        }
        i = i + 1;
    }
    Some(FlexStatements { count, flex_statement: out })
}

/// The root element spanning `a ..= e` decodes as a report.
pub open spec fn response_ok(t: Seq<Tok>, a: int, e: int) -> bool {
    let c = child_named(t, a, e, "FlexStatements"@);
    c < 0 || statements_ok(t, c, close_of(t, c))
}

/// `x` holds the report whose root element spans `a ..= e`.
pub open spec fn response_at(t: Seq<Tok>, a: int, e: int, x: FlexQueryResponse) -> bool {
    let c = child_named(t, a, e, "FlexStatements"@);
    &&& x.query_name@ == text_of(t, a, e, "queryName"@)
    &&& if c < 0 {
        x.flex_statements is None
    } else {
        x.flex_statements is Some && statements_at(t, c, close_of(t, c), x.flex_statements->Some_0)
    }
}

/// `d` is a well-formed document whose root element decodes as a report.
pub open spec fn report_ok(d: Seq<char>) -> bool {
    match xml_tokens_of(d) {
        Some(t) => close_of(t, 0) > 0 && response_ok(t, 0, close_of(t, 0)),
        None => false,
    }
}

/// `x` is the report that document `d` holds.
pub open spec fn report_is(d: Seq<char>, x: FlexQueryResponse) -> bool {
    match xml_tokens_of(d) {
        Some(t) => close_of(t, 0) > 0 && response_ok(t, 0, close_of(t, 0)) && response_at(
            t,
            0,
            close_of(t, 0),
            x,
        ),
        None => false,
    }
}

/// `d` is a well-formed document with a root element.
pub open spec fn acknowledgment_ok(d: Seq<char>) -> bool {
    match xml_tokens_of(d) {
        Some(t) => close_of(t, 0) > 0,
        None => false,
    }
}

/// `x` is the acknowledgment that document `d` holds.
pub open spec fn acknowledgment_is(d: Seq<char>, x: FlexStatementResponse) -> bool {
    match xml_tokens_of(d) {
        Some(t) => {
            let e = close_of(t, 0);
            &&& e > 0
            &&& x.status@ == text_of(t, 0, e, "Status"@)
            &&& x.reference_code@ == text_of(t, 0, e, "ReferenceCode"@)
            &&& x.url@ == text_of(t, 0, e, "Url"@)
        },
        None => false,
    }
}

fn malformed(detail: &str) -> (r: DownloadError)
    ensures
        r is Decode,
{
    DownloadError::Decode(String::from_str("the document is not well formed: ").concat(detail))
}

/// Reads the service's answer to a report request. Absent fields are empty;
/// a body that is not a well-formed document is a `Decode` error.
pub fn read_in_prepare_statement(statement_response: &str) -> (r: Result<
    FlexStatementResponse,
    DownloadError,
>)
    ensures
        r is Ok <==> acknowledgment_ok(statement_response@),
        r is Ok ==> acknowledgment_is(statement_response@, r->Ok_0),
        r is Err ==> r->Err_0 is Decode,
{
    let toks = match xml_tokens(statement_response) {
        Ok(v) => v,
        Err(m) => {
            return Err(malformed(m.as_str()));
        },
    };
    if toks.len() == 0 {
        return Err(malformed("no root element"));
    }
    match element_end(&toks, 0) {
        Some(e) => Ok(
            FlexStatementResponse {
                status: text_field(&toks, 0, e, "Status"),
                reference_code: text_field(&toks, 0, e, "ReferenceCode"),
                url: text_field(&toks, 0, e, "Url"),
            },
        ),
        None => Err(malformed("the root element is not closed")),
    }
}

/// Reads a report. Absent fields are empty or zero and absent sections are
/// `None`; a body that is not a well-formed document, or a numeric field
/// whose text is no number, is a `Decode` error.
pub fn read_in_statement_response(statement_response: &str) -> (r: Result<
    FlexQueryResponse,
    DownloadError,
>)
    ensures
        r is Ok <==> report_ok(statement_response@),
        r is Ok ==> report_is(statement_response@, r->Ok_0),
        r is Err ==> r->Err_0 is Decode,
{
    let toks = match xml_tokens(statement_response) {
        Ok(v) => v,
        Err(m) => {
            return Err(malformed(m.as_str()));
        },
    };
    if toks.len() == 0 {
        return Err(malformed("no root element"));
    }
    let e = match element_end(&toks, 0) {
        Some(e) => e,
        None => {
            return Err(malformed("the root element is not closed"));
        },
    };
    let flex_statements = match find_child(&toks, 0, e, "FlexStatements") {
        Some((c, d)) => match decode_statements(&toks, c, d) {
            Some(x) => Some(x),
            None => {
                return Err(
                    DownloadError::Decode(String::from_str("a numeric field holds no number")),
                );
            },
        },
        None => None,
    };
    Ok(FlexQueryResponse { query_name: text_field(&toks, 0, e, "queryName"), flex_statements })
}

/// Retrieves report `query` through `downloader`: the request is submitted,
/// and the report fetched from the acknowledged location with its reference
/// code. A failure of either phase is returned unchanged.
pub fn retrieve_flex_statement<D>(downloader: D, token: &str, query: &str) -> (r: Result<
    FlexQueryResponse,
    DownloadError,
>) where D: Downloader
    ensures
        exists|body: Result<String, DownloadError>| crate::report_step(body, r),
{
    let context = crate::Context { strategy: downloader };
    crate::retrieve(&context, token, query)
}

/// The first statement of a report, if any.
pub open spec fn first_statement(x: FlexQueryResponse) -> Option<FlexStatement> {
    match x.flex_statements {
        Some(s) => if s.flex_statement@.len() > 0 {
            Some(s.flex_statement@[0])
        } else {
            None
        },
        None => None,
    }
}

pub open spec fn open_positions_of(x: FlexQueryResponse) -> Option<Seq<OpenPosition>> {
    match first_statement(x) {
        Some(s) => match s.open_positions {
            Some(p) => Some(p.open_position@),
            None => None,
        },
        None => None,
    }
}

pub open spec fn trades_of(x: FlexQueryResponse) -> Option<Seq<Trade>> {
    match first_statement(x) {
        Some(s) => match s.trades {
            Some(p) => Some(p.trade@),
            None => None,
        },
        None => None,
    }
}

pub open spec fn cash_transactions_of(x: FlexQueryResponse) -> Option<Seq<CashTransaction>> {
    match first_statement(x) {
        Some(s) => match s.cash_transactions {
            Some(p) => Some(p.cash_transaction@),
            None => None,
        },
        None => None,
    }
}

impl FlexQueryResponse {
    /// Open positions of the first statement; `None` where the report has no
    /// statement or that statement no such section.
    pub fn open_positions(&self) -> (r: Option<&Vec<OpenPosition>>)
        ensures
            r is Some <==> open_positions_of(*self) is Some,
            r is Some ==> r->Some_0@ == open_positions_of(*self)->Some_0,
    {
        match &self.flex_statements {
            Some(s) => if s.flex_statement.len() > 0 {
                match &s.flex_statement[0].open_positions {
                    Some(p) => Some(&p.open_position),
                    None => None,
                }
            } else {
                None
            },
            None => None,
        }
    }

    /// Trades of the first statement; `None` where the report has no
    /// statement or that statement no such section.
    pub fn trades(&self) -> (r: Option<&Vec<Trade>>)
        ensures
            r is Some <==> trades_of(*self) is Some,
            r is Some ==> r->Some_0@ == trades_of(*self)->Some_0,
    {
        match &self.flex_statements {
            Some(s) => if s.flex_statement.len() > 0 {
                match &s.flex_statement[0].trades {
                    Some(p) => Some(&p.trade),
                    None => None,
                }
            } else {
                None
            },
            None => None,
        }
    }

    /// Cash transactions of the first statement; `None` where the report has
    /// no statement or that statement no such section.
    pub fn cash_transactions(&self) -> (r: Option<&Vec<CashTransaction>>)
        ensures
            r is Some <==> cash_transactions_of(*self) is Some,
            r is Some ==> r->Some_0@ == cash_transactions_of(*self)->Some_0,
    {
        match &self.flex_statements {
            Some(s) => if s.flex_statement.len() > 0 {
                match &s.flex_statement[0].cash_transactions {
                    Some(p) => Some(&p.cash_transaction),
                    None => None,
                }
            } else {
                None
            },
            None => None,
        }
    }
}

/// Position of the first `FlexStatement` of the report in `t` whose root
/// spans `0 ..= e`; -1 if there is none.
pub open spec fn first_statement_pos(t: Seq<Tok>, e: int) -> int {
    let s = child_named(t, 0, e, "FlexStatements"@);
    if s < 0 || children_from(t, s + 1, close_of(t, s), "FlexStatement"@).len() == 0 {
        -1
    } else {
        children_from(t, s + 1, close_of(t, s), "FlexStatement"@)[0]
    }
}

/// Reading a report and then asking for the trades of its first statement
/// gives exactly the `Trade` entries of that statement's `Trades` section,
/// in document order; where the report has no statement, or its first
/// statement no `Trades` section, there are none, and this is no error.
/// The same holds of open positions and of cash transactions.
pub proof fn lemma_sections_in_document_order(d: Seq<char>, x: FlexQueryResponse)
    requires
        report_is(d, x),
    ensures
        ({
            let t = xml_tokens_of(d)->Some_0;
            let f = first_statement_pos(t, close_of(t, 0));
            let g = close_of(t, f);
            let c = child_named(t, f, g, "Trades"@);
            let ks = children_from(t, c + 1, close_of(t, c), "Trade"@);
            if f < 0 || c < 0 {
                trades_of(x) is None
            } else {
                &&& trades_of(x) is Some
                &&& trades_of(x)->Some_0.len() == ks.len()
                &&& forall|i: int|
                    0 <= i < ks.len() ==> #[trigger] trade_at(
                        t,
                        ks[i],
                        close_of(t, ks[i]),
                        trades_of(x)->Some_0[i],
                    )
            }
        }),
        ({
            let t = xml_tokens_of(d)->Some_0;
            let f = first_statement_pos(t, close_of(t, 0));
            let g = close_of(t, f);
            let c = child_named(t, f, g, "OpenPositions"@);
            let ks = children_from(t, c + 1, close_of(t, c), "OpenPosition"@);
            if f < 0 || c < 0 {
                open_positions_of(x) is None
            } else {
                &&& open_positions_of(x) is Some
                &&& open_positions_of(x)->Some_0.len() == ks.len()
                &&& forall|i: int|
                    0 <= i < ks.len() ==> #[trigger] open_position_at(
                        t,
                        ks[i],
                        close_of(t, ks[i]),
                        open_positions_of(x)->Some_0[i],
                    )
            }
        }),
        ({
            let t = xml_tokens_of(d)->Some_0;
            let f = first_statement_pos(t, close_of(t, 0));
            let g = close_of(t, f);
            let c = child_named(t, f, g, "CashTransactions"@);
            let ks = children_from(t, c + 1, close_of(t, c), "CashTransaction"@);
            if f < 0 || c < 0 {
                cash_transactions_of(x) is None
            } else {
                &&& cash_transactions_of(x) is Some
                &&& cash_transactions_of(x)->Some_0.len() == ks.len()
                &&& forall|i: int|
                    0 <= i < ks.len() ==> #[trigger] cash_transaction_at(
                        t,
                        ks[i],
                        close_of(t, ks[i]),
                        cash_transactions_of(x)->Some_0[i],
                    )
            }
        }),
{
    let t = xml_tokens_of(d)->Some_0;
    let e = close_of(t, 0);
    let s = child_named(t, 0, e, "FlexStatements"@);
    if s >= 0 {
        let fs = children_from(t, s + 1, close_of(t, s), "FlexStatement"@);
        if fs.len() > 0 {
            assert(statement_at(t, fs[0], close_of(t, fs[0]), x.flex_statements->Some_0.flex_statement@[0]));
        }
    }
}

/// A report in which some trade of some statement holds, in one of its
/// numeric fields, text that is no decimal literal is not read: the numeric
/// field is not silently taken as zero.
pub proof fn lemma_malformed_number_rejected(
    d: Seq<char>,
    i: int,
    j: int,
    field: Seq<char>,
)
    requires
        xml_tokens_of(d) is Some,
        ({
            let t = xml_tokens_of(d)->Some_0;
            let e = close_of(t, 0);
            let s = child_named(t, 0, e, "FlexStatements"@);
            let fs = children_from(t, s + 1, close_of(t, s), "FlexStatement"@);
            let c = child_named(t, fs[i], close_of(t, fs[i]), "Trades"@);
            let ks = children_from(t, c + 1, close_of(t, c), "Trade"@);
            &&& e > 0
            &&& s >= 0
            &&& 0 <= i < fs.len()
            &&& c >= 0
            &&& 0 <= j < ks.len()
            &&& field == "fxRateToBase"@ || field == "multiplier"@ || field == "quantity"@
                || field == "proceeds"@ || field == "taxes"@ || field == "ibCommission"@
                || field == "netCash"@
            &&& field_text(t, ks[j], close_of(t, ks[j]), field) is Some
            &&& decimal_of(field_text(t, ks[j], close_of(t, ks[j]), field)->Some_0) is None
        }),
    ensures
        !report_ok(d),
{
    let t = xml_tokens_of(d)->Some_0;
    let e = close_of(t, 0);
    let s = child_named(t, 0, e, "FlexStatements"@);
    let fs = children_from(t, s + 1, close_of(t, s), "FlexStatement"@);
    let c = child_named(t, fs[i], close_of(t, fs[i]), "Trades"@);
    let ks = children_from(t, c + 1, close_of(t, c), "Trade"@);
    assert(!trade_ok(t, ks[j], close_of(t, ks[j])));
    assert(!trades_ok(t, c, close_of(t, c)));
    assert(!statement_ok(t, fs[i], close_of(t, fs[i])));
}

} // verus!
