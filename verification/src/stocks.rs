use vstd::prelude::*;

use crate::record::{
    ident_member, str_elements, str_member, RecError, RecStruct, RecValue, Record,
};
use crate::text::{ascii_upper, ascii_upper_seq, text_equals, upper_equals};

verus! {

/// How much interest the owner has in a stock.
#[derive(Debug, Clone, Copy, PartialEq, Eq, Structural, PartialOrd, Ord, Hash)]
pub enum Interest {
    High,
    Medium,
    Low,
}

/// The canonical name of an interest level.
pub open spec fn interest_name(i: Interest) -> Seq<char> {
    match i {
        Interest::High => "HIGH"@,
        Interest::Medium => "MEDIUM"@,
        Interest::Low => "LOW"@,
    }
}

/// The interest level with canonical name `s`, if any (case matters).
pub open spec fn interest_named(s: Seq<char>) -> Option<Interest> {
    if s == "HIGH"@ {
        Some(Interest::High)
    } else if s == "MEDIUM"@ {
        Some(Interest::Medium)
    } else if s == "LOW"@ {
        Some(Interest::Low)
    } else {
        None
    }
}

/// The level that a deprecated identifier stands for under the historical
/// mapping, which swaps high and low: `LOW_INTEREST` gives `High`,
/// `HIGH_INTEREST` gives `Low`, anything else `Medium`; compared ASCII
/// case-insensitively.
pub open spec fn deprecated_interest_bugged(s: Seq<char>) -> Interest {
    let u = ascii_upper_seq(s);
    if u == "LOW_INTEREST"@ {
        Interest::High
    } else if u == "HIGH_INTEREST"@ {
        Interest::Low
    } else {
        Interest::Medium
    }
}

/// The level that a deprecated identifier stands for under the corrected
/// mapping: `LOW_INTEREST` gives `Low`, `HIGH_INTEREST` gives `High`,
/// anything else `Medium`; compared ASCII case-insensitively.
pub open spec fn deprecated_interest_normal(s: Seq<char>) -> Interest {
    let u = ascii_upper_seq(s);
    if u == "LOW_INTEREST"@ {
        Interest::Low
    } else if u == "HIGH_INTEREST"@ {
        Interest::High
    } else {
        Interest::Medium
    }
}

/// The level read from a record identifier: the canonical name of the
/// upper-cased identifier when it is one, else the historical deprecated
/// mapping of the upper-cased identifier.
pub open spec fn interest_from_ident(s: Seq<char>) -> Interest {
    let u = ascii_upper_seq(s);
    match interest_named(u) {
        Some(i) => i,
        None => deprecated_interest_bugged(u),
    }
}

/// Upper-casing twice is upper-casing once.
pub proof fn lemma_ascii_upper_idempotent(s: Seq<char>)
    ensures
        ascii_upper_seq(ascii_upper_seq(s)) == ascii_upper_seq(s),
{
    assert forall|j: int| 0 <= j < s.len() implies #[trigger] ascii_upper(ascii_upper(s[j]))
        == ascii_upper(s[j]) by {
        let c = s[j];
        if 'a' <= c && c <= 'z' {
            assert(ascii_upper(c) as u32 == (c as u32) - 32);
        }
    }
    assert(ascii_upper_seq(ascii_upper_seq(s)) =~= ascii_upper_seq(s));
}

impl Default for Interest {
    fn default() -> (r: Interest)
        ensures
            r == Interest::Medium,
    {
        Interest::Medium
    }
}

impl Interest {
    /// The canonical name of this level ("HIGH", "MEDIUM" or "LOW").
    pub fn to_string(&self) -> (s: String)
        ensures
            s@ == interest_name(*self),
    {
        match self {
            Interest::High => "HIGH".to_owned(),
            Interest::Medium => "MEDIUM".to_owned(),
            Interest::Low => "LOW".to_owned(),
        }
    }

    /// Parse a canonical name; any other text is refused with a message that
    /// quotes it.
    pub fn from_name(s: &str) -> (r: Result<Interest, String>)
        ensures
            interest_named(s@) is Some ==> r == Ok::<Interest, String>(interest_named(s@)->0),
            interest_named(s@) is None ==> (r matches Err(e) && e@ == "unknown interest: "@ + s@),
    {
        if text_equals(s, "HIGH") {
            Ok(Interest::High)
        } else if text_equals(s, "MEDIUM") {
            Ok(Interest::Medium)
        } else if text_equals(s, "LOW") {
            Ok(Interest::Low)
        } else {
            Err("unknown interest: ".to_owned().concat(s))
        }
    }

    /// Deprecated identifiers under the historical (swapped) mapping.
    pub fn from_deprecated_bugged(s: &str) -> (r: Interest)
        ensures
            r == deprecated_interest_bugged(s@),
    {
        if upper_equals(s, "LOW_INTEREST") {
            Interest::High
        } else if upper_equals(s, "HIGH_INTEREST") {
            Interest::Low
        } else {
            Interest::Medium
        }
    }

    /// Deprecated identifiers under the corrected mapping.
    pub fn from_deprecated_normal(s: &str) -> (r: Interest)
        ensures
            r == deprecated_interest_normal(s@),
    {
        if upper_equals(s, "LOW_INTEREST") {
            Interest::Low
        } else if upper_equals(s, "HIGH_INTEREST") {
            Interest::High
        } else {
            Interest::Medium
        }
    }

    /// Read a level from a record identifier: canonical names first (ASCII
    /// case-insensitively), then the historical deprecated mapping.
    pub fn from_rec_ident(s: &str) -> (r: Interest)
        ensures
            r == interest_from_ident(s@),
    {
        proof {
            lemma_ascii_upper_idempotent(s@);
        }
        if upper_equals(s, "HIGH") {
            Interest::High
        } else if upper_equals(s, "MEDIUM") {
            Interest::Medium
        } else if upper_equals(s, "LOW") {
            Interest::Low
        } else {
            Interest::from_deprecated_bugged(s)
        }
    }
}

impl std::str::FromStr for Interest {
    type Err = String;

    /// Parse a canonical name ("HIGH", "MEDIUM" or "LOW"); any other text
    /// is refused with a message that quotes it.
    fn from_str(s: &str) -> (r: Result<Interest, String>)
        ensures
            interest_named(s@) is Some ==> r == Ok::<Interest, String>(interest_named(s@)->0),
            interest_named(s@) is None ==> (r matches Err(e) && e@ == "unknown interest: "@ + s@),
    {
        Interest::from_name(s)
    }
}

/// Every level is read back from its own canonical name.
pub proof fn lemma_interest_name_round_trip(i: Interest)
    ensures
        interest_named(interest_name(i)) == Some(i),
        interest_from_ident(interest_name(i)) == i,
{
    reveal_strlit("HIGH");
    reveal_strlit("MEDIUM");
    reveal_strlit("LOW");
    let n = interest_name(i);
    assert(ascii_upper_seq(n) =~= n);
}

/// The canonical names are "HIGH", "MEDIUM" and "LOW". A record identifier
/// is read without regard to ASCII case. The deprecated identifiers
/// `LOW_INTEREST`, `HIGH_INTEREST` and `MEDIUM_INTEREST` stand for low, high
/// and medium interest under the corrected mapping; the historical mapping
/// agrees with it except that it swaps high and low, and it is the one that
/// record identifiers follow.
pub proof fn lemma_interest_levels(s: Seq<char>)
    ensures
        interest_name(Interest::High) == "HIGH"@,
        interest_name(Interest::Medium) == "MEDIUM"@,
        interest_name(Interest::Low) == "LOW"@,
        interest_from_ident(ascii_upper_seq(s)) == interest_from_ident(s),
        deprecated_interest_normal("LOW_INTEREST"@) == Interest::Low,
        deprecated_interest_normal("HIGH_INTEREST"@) == Interest::High,
        deprecated_interest_normal("MEDIUM_INTEREST"@) == Interest::Medium,
        deprecated_interest_bugged(s) == match deprecated_interest_normal(s) {
            Interest::High => Interest::Low,
            Interest::Low => Interest::High,
            Interest::Medium => Interest::Medium,
        },
        interest_from_ident("LOW_INTEREST"@) == Interest::High,
        interest_from_ident("HIGH_INTEREST"@) == Interest::Low,
        interest_from_ident("low"@) == Interest::Low,
{
    reveal_strlit("HIGH");
    reveal_strlit("MEDIUM");
    reveal_strlit("LOW");
    reveal_strlit("low");
    reveal_strlit("LOW_INTEREST");
    reveal_strlit("HIGH_INTEREST");
    reveal_strlit("MEDIUM_INTEREST");
    lemma_ascii_upper_idempotent(s);
    assert(ascii_upper_seq("LOW_INTEREST"@) =~= "LOW_INTEREST"@);
    assert(ascii_upper_seq("HIGH_INTEREST"@) =~= "HIGH_INTEREST"@);
    assert(ascii_upper_seq("MEDIUM_INTEREST"@) =~= "MEDIUM_INTEREST"@);
    assert(ascii_upper_seq("low"@) =~= "LOW"@);
    assert("LOW_INTEREST"@ != "HIGH_INTEREST"@);
    assert("LOW_INTEREST"@ != "MEDIUM_INTEREST"@);
    assert("HIGH_INTEREST"@ != "MEDIUM_INTEREST"@);
    assert("LOW_INTEREST"@ != "HIGH"@ && "LOW_INTEREST"@ != "MEDIUM"@ && "LOW_INTEREST"@ != "LOW"@);
    assert("HIGH_INTEREST"@ != "HIGH"@ && "HIGH_INTEREST"@ != "MEDIUM"@ && "HIGH_INTEREST"@ != "LOW"@);
    assert("LOW"@ != "HIGH"@ && "LOW"@ != "MEDIUM"@);
    assert("LOW_INTEREST"@[0] == 'L' && "HIGH_INTEREST"@[0] == 'H');
}

/// Stands for the list of cross pointers that refer to a record. Cross
/// pointers are not modelled in this library, so the list holds nothing; a
/// copy of a record starts with a list of its own.
#[derive(Debug)]
pub struct emCrossPtrList {}

impl emCrossPtrList {
    /// A list with no cross pointers.
    pub fn new() -> (r: emCrossPtrList) {
        emCrossPtrList {}
    }
}

/// The content of a stock record, as plain values.
pub struct StockRecView {
    pub id: Seq<char>,
    pub name: Seq<char>,
    pub symbol: Seq<char>,
    pub wkn: Seq<char>,
    pub isin: Seq<char>,
    pub country: Seq<char>,
    pub sector: Seq<char>,
    pub collection: Seq<char>,
    pub comment: Seq<char>,
    pub owning_shares: bool,
    pub own_shares: Seq<char>,
    pub trade_price: Seq<char>,
    pub trade_date: Seq<char>,
    pub prices: Seq<char>,
    pub last_price_date: Seq<char>,
    pub desired_price: Seq<char>,
    pub expected_dividend: Seq<char>,
    pub inquiry_date: Seq<char>,
    pub interest: Interest,
    pub web_pages: Seq<Seq<char>>,
}

/// One stock of a portfolio.
#[derive(Debug)]
pub struct StockRec {
    pub id: String,
    pub name: String,
    pub symbol: String,
    pub wkn: String,
    pub isin: String,
    pub country: String,
    pub sector: String,
    pub collection: String,
    pub comment: String,
    pub owning_shares: bool,
    pub own_shares: String,
    pub trade_price: String,
    pub trade_date: String,
    pub prices: String,
    pub last_price_date: String,
    pub desired_price: String,
    pub expected_dividend: String,
    pub inquiry_date: String,
    pub interest: Interest,
    pub web_pages: Vec<String>,
    cross_ptr_list: emCrossPtrList,
}

/// The views of a list of texts.
pub open spec fn texts_view(v: Seq<String>) -> Seq<Seq<char>> {
    v.map_values(|s: String| s@)
}

impl View for StockRec {
    type V = StockRecView;

    closed spec fn view(&self) -> StockRecView {
        StockRecView {
            id: self.id@,
            name: self.name@,
            symbol: self.symbol@,
            wkn: self.wkn@,
            isin: self.isin@,
            country: self.country@,
            sector: self.sector@,
            collection: self.collection@,
            comment: self.comment@,
            owning_shares: self.owning_shares,
            own_shares: self.own_shares@,
            trade_price: self.trade_price@,
            trade_date: self.trade_date@,
            prices: self.prices@,
            last_price_date: self.last_price_date@,
            desired_price: self.desired_price@,
            expected_dividend: self.expected_dividend@,
            inquiry_date: self.inquiry_date@,
            interest: self.interest,
            web_pages: texts_view(self.web_pages@),
        }
    }
}

/// The default content of a stock record: empty texts, no shares owned,
/// medium interest, no web pages.
pub open spec fn default_stock_view() -> StockRecView {
    StockRecView {
        id: Seq::empty(),
        name: Seq::empty(),
        symbol: Seq::empty(),
        wkn: Seq::empty(),
        isin: Seq::empty(),
        country: Seq::empty(),
        sector: Seq::empty(),
        collection: Seq::empty(),
        comment: Seq::empty(),
        owning_shares: false,
        own_shares: Seq::empty(),
        trade_price: Seq::empty(),
        trade_date: Seq::empty(),
        prices: Seq::empty(),
        last_price_date: Seq::empty(),
        desired_price: Seq::empty(),
        expected_dividend: Seq::empty(),
        inquiry_date: Seq::empty(),
        interest: Interest::Medium,
        web_pages: Seq::empty(),
    }
}

/// The text of a string member, or the empty text when the member is missing
/// or holds something else.
pub open spec fn str_member_or_empty(m: Map<Seq<char>, RecValue>, name: Seq<char>) -> Seq<char> {
    match str_member(m, name) {
        Some(t) => t,
        None => Seq::empty(),
    }
}

/// The stock record that a record structure describes.
pub open spec fn stock_from_members(m: Map<Seq<char>, RecValue>) -> StockRecView {
    StockRecView {
        id: str_member_or_empty(m, "Id"@),
        name: str_member_or_empty(m, "Name"@),
        symbol: str_member_or_empty(m, "Symbol"@),
        wkn: str_member_or_empty(m, "WKN"@),
        isin: str_member_or_empty(m, "ISIN"@),
        country: str_member_or_empty(m, "Country"@),
        sector: str_member_or_empty(m, "Sector"@),
        collection: str_member_or_empty(m, "Collection"@),
        comment: str_member_or_empty(m, "Comment"@),
        owning_shares: m.contains_key("OwningShares"@) && m["OwningShares"@] == RecValue::Bool(
            true,
        ),
        own_shares: str_member_or_empty(m, "OwnShares"@),
        trade_price: str_member_or_empty(m, "TradePrice"@),
        trade_date: str_member_or_empty(m, "TradeDate"@),
        prices: str_member_or_empty(m, "Prices"@),
        last_price_date: str_member_or_empty(m, "LastPriceDate"@),
        desired_price: str_member_or_empty(m, "DesiredPrice"@),
        expected_dividend: str_member_or_empty(m, "ExpectedDividend"@),
        inquiry_date: str_member_or_empty(m, "InquiryDate"@),
        interest: match ident_member(m, "Interest"@) {
            Some(t) => interest_from_ident(t),
            None => Interest::Medium,
        },
        web_pages: if m.contains_key("WebPages"@) && m["WebPages"@] is Array {
            str_elements(m["WebPages"@]->Array_0@)
        } else {
            Seq::empty()
        },
    }
}

/// The names of the members that a stock record writes.
pub open spec fn stock_member_names() -> Set<Seq<char>> {
    set![
        "Id"@, "Name"@, "Symbol"@, "WKN"@, "ISIN"@, "Country"@, "Sector"@, "Collection"@,
        "Comment"@, "OwningShares"@, "OwnShares"@, "TradePrice"@, "TradeDate"@, "Prices"@,
        "LastPriceDate"@, "DesiredPrice"@, "ExpectedDividend"@, "InquiryDate"@, "Interest"@,
        "WebPages"@,
    ]
}

/// A record structure holds exactly the members that a stock record with
/// content `v` writes.
pub open spec fn describes_stock(m: Map<Seq<char>, RecValue>, v: StockRecView) -> bool {
    &&& m.dom() == stock_member_names()
    &&& str_member(m, "Id"@) == Some(v.id)
    &&& str_member(m, "Name"@) == Some(v.name)
    &&& str_member(m, "Symbol"@) == Some(v.symbol)
    &&& str_member(m, "WKN"@) == Some(v.wkn)
    &&& str_member(m, "ISIN"@) == Some(v.isin)
    &&& str_member(m, "Country"@) == Some(v.country)
    &&& str_member(m, "Sector"@) == Some(v.sector)
    &&& str_member(m, "Collection"@) == Some(v.collection)
    &&& str_member(m, "Comment"@) == Some(v.comment)
    &&& m["OwningShares"@] == RecValue::Bool(v.owning_shares)
    &&& str_member(m, "OwnShares"@) == Some(v.own_shares)
    &&& str_member(m, "TradePrice"@) == Some(v.trade_price)
    &&& str_member(m, "TradeDate"@) == Some(v.trade_date)
    &&& str_member(m, "Prices"@) == Some(v.prices)
    &&& str_member(m, "LastPriceDate"@) == Some(v.last_price_date)
    &&& str_member(m, "DesiredPrice"@) == Some(v.desired_price)
    &&& str_member(m, "ExpectedDividend"@) == Some(v.expected_dividend)
    &&& str_member(m, "InquiryDate"@) == Some(v.inquiry_date)
    &&& ident_member(m, "Interest"@) == Some(interest_name(v.interest))
    &&& m["WebPages"@] is Array
    &&& all_str(m["WebPages"@]->Array_0@)
    &&& str_elements(m["WebPages"@]->Array_0@) == v.web_pages
}

/// Every element of the array holds a string.
pub open spec fn all_str(a: Seq<RecValue>) -> bool {
    forall|i: int| 0 <= i < a.len() ==> a[i] is Str
}

/// Whether two lists of texts hold the same texts in the same order.
fn texts_equal(a: &Vec<String>, b: &Vec<String>) -> (r: bool)
    ensures
        r == (texts_view(a@) == texts_view(b@)),
{
    if a.len() != b.len() {
        assert(texts_view(a@).len() != texts_view(b@).len());
        return false;
    }
    let mut i: usize = 0;
    while i < a.len()
        invariant
            a@.len() == b@.len(),
            0 <= i <= a@.len(),
            forall|j: int| 0 <= j < i ==> a@[j]@ == b@[j]@,
        decreases a@.len() - i,
    {
        if a[i] != b[i] {
            assert(texts_view(a@)[i as int] != texts_view(b@)[i as int]);
            return false;
        }
        i = i + 1;
    }
    assert(texts_view(a@) =~= texts_view(b@));
    true
}

/// A copy of a list of texts.
fn clone_texts(v: &Vec<String>) -> (r: Vec<String>)
    ensures
        r@ == v@,
{
    let mut r: Vec<String> = Vec::new();
    let mut i: usize = 0;
    while i < v.len()
        invariant
            0 <= i <= v@.len(),
            r@ == v@.take(i as int),
        decreases v@.len() - i,
    {
        r.push(v[i].clone());
        assert(r@ =~= v@.take(i + 1));
        i = i + 1;
    }
    assert(v@.take(v@.len() as int) =~= v@);
    r
}

/// The text of member `name` when it holds a string, else the empty text.
fn str_or_empty(rec: &RecStruct, name: &str) -> (s: String)
    ensures
        s@ == str_member_or_empty(rec@, name@),
{
    match rec.get_str(name) {
        Some(t) => t.to_owned(),
        None => String::new(),
    }
}

/// The texts of the string elements of an array, skipping other elements.
fn string_elements(a: &Vec<RecValue>) -> (r: Vec<String>)
    ensures
        texts_view(r@) == str_elements(a@),
{
    let mut r: Vec<String> = Vec::new();
    let mut i: usize = 0;
    while i < a.len()
        invariant
            0 <= i <= a@.len(),
            texts_view(r@) == str_elements(a@.take(i as int)),
        decreases a@.len() - i,
    {
        let ghost before = r@;
        assert(a@.take(i + 1).drop_last() =~= a@.take(i as int));
        if let RecValue::Str(s) = &a[i] {
            r.push(s.clone());
            assert(texts_view(r@) =~= texts_view(before).push(s@));
        }
        i = i + 1;
    }
    assert(a@.take(a@.len() as int) =~= a@);
    r
}

impl Default for StockRec {
    fn default() -> (r: StockRec)
        ensures
            r@ == default_stock_view(),
    {
        let r = StockRec {
            id: String::new(),
            name: String::new(),
            symbol: String::new(),
            wkn: String::new(),
            isin: String::new(),
            country: String::new(),
            sector: String::new(),
            collection: String::new(),
            comment: String::new(),
            owning_shares: false,
            own_shares: String::new(),
            trade_price: String::new(),
            trade_date: String::new(),
            prices: String::new(),
            last_price_date: String::new(),
            desired_price: String::new(),
            expected_dividend: String::new(),
            inquiry_date: String::new(),
            interest: Interest::Medium,
            web_pages: Vec::new(),
            cross_ptr_list: emCrossPtrList::new(),
        };
        assert(texts_view(r.web_pages@) =~= Seq::empty());
        r
    }
}

impl Clone for StockRec {
    /// A copy with the same content and a cross-pointer list of its own.
    fn clone(&self) -> (r: StockRec)
        ensures
            r@ == self@,
    {
        StockRec {
            id: self.id.clone(),
            name: self.name.clone(),
            symbol: self.symbol.clone(),
            wkn: self.wkn.clone(),
            isin: self.isin.clone(),
            country: self.country.clone(),
            sector: self.sector.clone(),
            collection: self.collection.clone(),
            comment: self.comment.clone(),
            owning_shares: self.owning_shares,
            own_shares: self.own_shares.clone(),
            trade_price: self.trade_price.clone(),
            trade_date: self.trade_date.clone(),
            prices: self.prices.clone(),
            last_price_date: self.last_price_date.clone(),
            desired_price: self.desired_price.clone(),
            expected_dividend: self.expected_dividend.clone(),
            inquiry_date: self.inquiry_date.clone(),
            interest: self.interest,
            web_pages: clone_texts(&self.web_pages),
            cross_ptr_list: emCrossPtrList::new(),
        }
    }
}

impl PartialEq for StockRec {
    fn eq(&self, other: &StockRec) -> (r: bool) {
        let r = self.id == other.id && self.name == other.name && self.symbol == other.symbol
            && self.wkn == other.wkn && self.isin == other.isin && self.country == other.country
            && self.sector == other.sector && self.collection == other.collection
            && self.comment == other.comment && self.owning_shares == other.owning_shares
            && self.own_shares == other.own_shares && self.trade_price == other.trade_price
            && self.trade_date == other.trade_date && self.prices == other.prices
            && self.last_price_date == other.last_price_date
            && self.desired_price == other.desired_price
            && self.expected_dividend == other.expected_dividend
            && self.inquiry_date == other.inquiry_date && self.interest == other.interest
            && texts_equal(&self.web_pages, &other.web_pages);
        r
    }
}

impl vstd::std_specs::cmp::PartialEqSpecImpl for StockRec {
    open spec fn obeys_eq_spec() -> bool {
        true
    }

    open spec fn eq_spec(&self, other: &StockRec) -> bool {
        self@ == other@
    }
}

impl StockRec {
    /// The cross-pointer list of this record.
    pub closed spec fn cross_ptrs(&self) -> emCrossPtrList {
        self.cross_ptr_list
    }

    /// The list of cross pointers that refer to this record, for linking.
    pub fn LinkCrossPtr(&mut self) -> (r: &mut emCrossPtrList)
        ensures
            *r == old(self).cross_ptrs(),
            final(self)@ == old(self)@,
            final(self).cross_ptrs() == *final(r),
    {
        &mut self.cross_ptr_list
    }
}

impl Record for StockRec {
    open spec fn is_default(&self) -> bool {
        self@ == default_stock_view()
    }

    /// Read a stock record; missing or mistyped members take their default.
    fn from_rec(rec: &RecStruct) -> (r: Result<StockRec, RecError>)
        ensures
            r matches Ok(s) && s@ == stock_from_members(rec@),
    {
        let interest = match rec.get_ident("Interest") {
            Some(ident) => Interest::from_rec_ident(ident),
            None => Interest::Medium,
        };
        let web_pages = match rec.get_array("WebPages") {
            Some(arr) => string_elements(arr),
            None => Vec::new(),
        };
        let owning_shares = match rec.get_bool("OwningShares") {
            Some(b) => b,
            None => false,
        };
        let r = StockRec {
            id: str_or_empty(rec, "Id"),
            name: str_or_empty(rec, "Name"),
            symbol: str_or_empty(rec, "Symbol"),
            wkn: str_or_empty(rec, "WKN"),
            isin: str_or_empty(rec, "ISIN"),
            country: str_or_empty(rec, "Country"),
            sector: str_or_empty(rec, "Sector"),
            collection: str_or_empty(rec, "Collection"),
            comment: str_or_empty(rec, "Comment"),
            owning_shares,
            own_shares: str_or_empty(rec, "OwnShares"),
            trade_price: str_or_empty(rec, "TradePrice"),
            trade_date: str_or_empty(rec, "TradeDate"),
            prices: str_or_empty(rec, "Prices"),
            last_price_date: str_or_empty(rec, "LastPriceDate"),
            desired_price: str_or_empty(rec, "DesiredPrice"),
            expected_dividend: str_or_empty(rec, "ExpectedDividend"),
            inquiry_date: str_or_empty(rec, "InquiryDate"),
            interest,
            web_pages,
            cross_ptr_list: emCrossPtrList::new(),
        };
        assert(texts_view(r.web_pages@) =~= stock_from_members(rec@).web_pages);
        Ok(r)
    }

    /// Write every member of the stock record.
    fn to_rec(&self) -> (rec: RecStruct)
        ensures
            describes_stock(rec@, self@),
    {
        proof {
            lemma_member_names();
        }
        let mut rec = RecStruct::new();
        rec.set_str("Id", self.id.as_str());
        rec.set_str("Name", self.name.as_str());
        rec.set_str("Symbol", self.symbol.as_str());
        rec.set_str("WKN", self.wkn.as_str());
        rec.set_str("ISIN", self.isin.as_str());
        rec.set_str("Country", self.country.as_str());
        rec.set_str("Sector", self.sector.as_str());
        rec.set_str("Collection", self.collection.as_str());
        rec.set_str("Comment", self.comment.as_str());
        rec.set_bool("OwningShares", self.owning_shares);
        rec.set_str("OwnShares", self.own_shares.as_str());
        rec.set_str("TradePrice", self.trade_price.as_str());
        rec.set_str("TradeDate", self.trade_date.as_str());
        rec.set_str("Prices", self.prices.as_str());
        rec.set_str("LastPriceDate", self.last_price_date.as_str());
        rec.set_str("DesiredPrice", self.desired_price.as_str());
        rec.set_str("ExpectedDividend", self.expected_dividend.as_str());
        rec.set_str("InquiryDate", self.inquiry_date.as_str());
        let ident = self.interest.to_string();
        rec.set_ident("Interest", ident.as_str());
        let pages = web_page_values(&self.web_pages);
        rec.SetValue("WebPages", RecValue::Array(pages));
        proof {
            assert(rec@.dom() =~= stock_member_names());
        }
        rec
    }

    fn SetToDefault(&mut self) {
        *self = StockRec::default();
    }

    fn IsSetToDefault(&self) -> (r: bool) {
        let d = StockRec::default();
        *self == d
    }
}

/// String values for a list of texts, in order.
fn web_page_values(v: &Vec<String>) -> (r: Vec<RecValue>)
    ensures
        all_str(r@),
        str_elements(r@) == texts_view(v@),
{
    let mut r: Vec<RecValue> = Vec::new();
    let mut i: usize = 0;
    while i < v.len()
        invariant
            0 <= i <= v@.len(),
            r@.len() == i,
            all_str(r@),
            str_elements(r@) == texts_view(v@.take(i as int)),
        decreases v@.len() - i,
    {
        let ghost before = r@;
        r.push(RecValue::Str(v[i].clone()));
        assert(r@.drop_last() =~= before);
        assert(texts_view(v@.take(i + 1)) =~= texts_view(v@.take(i as int)).push(v@[i as int]@));
        i = i + 1;
    }
    assert(v@.take(v@.len() as int) =~= v@);
    r
}

/// The lengths and first letters of the member names of a stock record,
/// enough to tell any two of them apart.
proof fn lemma_member_names()
    ensures
        "Id"@.len() == 2,
        "Id"@[0] == 'I',
        "Name"@.len() == 4,
        "Name"@[0] == 'N',
        "Symbol"@.len() == 6,
        "Symbol"@[0] == 'S',
        "WKN"@.len() == 3,
        "WKN"@[0] == 'W',
        "ISIN"@.len() == 4,
        "ISIN"@[0] == 'I',
        "Country"@.len() == 7,
        "Country"@[0] == 'C',
        "Sector"@.len() == 6,
        "Sector"@[0] == 'S',
        "Collection"@.len() == 10,
        "Collection"@[0] == 'C',
        "Comment"@.len() == 7,
        "Comment"@[0] == 'C',
        "OwningShares"@.len() == 12,
        "OwningShares"@[0] == 'O',
        "OwnShares"@.len() == 9,
        "OwnShares"@[0] == 'O',
        "TradePrice"@.len() == 10,
        "TradePrice"@[0] == 'T',
        "TradeDate"@.len() == 9,
        "TradeDate"@[0] == 'T',
        "Prices"@.len() == 6,
        "Prices"@[0] == 'P',
        "LastPriceDate"@.len() == 13,
        "LastPriceDate"@[0] == 'L',
        "DesiredPrice"@.len() == 12,
        "DesiredPrice"@[0] == 'D',
        "ExpectedDividend"@.len() == 16,
        "ExpectedDividend"@[0] == 'E',
        "InquiryDate"@.len() == 11,
        "InquiryDate"@[0] == 'I',
        "Interest"@.len() == 8,
        "Interest"@[0] == 'I',
        "WebPages"@.len() == 8,
        "WebPages"@[0] == 'W',
        "Symbol"@[1] == 'y',
        "Sector"@[1] == 'e',
        "Country"@[2] == 'u',
        "Comment"@[2] == 'm',
{
    reveal_strlit("Id");
    reveal_strlit("Name");
    reveal_strlit("Symbol");
    reveal_strlit("WKN");
    reveal_strlit("ISIN");
    reveal_strlit("Country");
    reveal_strlit("Sector");
    reveal_strlit("Collection");
    reveal_strlit("Comment");
    reveal_strlit("OwningShares");
    reveal_strlit("OwnShares");
    reveal_strlit("TradePrice");
    reveal_strlit("TradeDate");
    reveal_strlit("Prices");
    reveal_strlit("LastPriceDate");
    reveal_strlit("DesiredPrice");
    reveal_strlit("ExpectedDividend");
    reveal_strlit("InquiryDate");
    reveal_strlit("Interest");
    reveal_strlit("WebPages");
}

/// Reading a record structure: a member that is missing, or holds a value
/// of another kind, reads as the default stock record's value (an empty
/// text, no shares owned, medium interest, no web pages); a member of the
/// right kind reads as what it holds. So the empty structure reads as the
/// default stock record.
pub proof fn lemma_missing_members_read_as_default(m: Map<Seq<char>, RecValue>)
    ensures
        !(m.contains_key("Id"@) && m["Id"@] is Str) ==> stock_from_members(m).id == Seq::<char>::empty(),
        m.contains_key("Id"@) && m["Id"@] is Str ==> stock_from_members(m).id == m["Id"@]->Str_0@,
        !(m.contains_key("Name"@) && m["Name"@] is Str) ==> stock_from_members(m).name == Seq::<char>::empty(),
        m.contains_key("Name"@) && m["Name"@] is Str ==> stock_from_members(m).name == m["Name"@]->Str_0@,
        !(m.contains_key("Symbol"@) && m["Symbol"@] is Str) ==> stock_from_members(m).symbol == Seq::<char>::empty(),
        m.contains_key("Symbol"@) && m["Symbol"@] is Str ==> stock_from_members(m).symbol == m["Symbol"@]->Str_0@,
        !(m.contains_key("WKN"@) && m["WKN"@] is Str) ==> stock_from_members(m).wkn == Seq::<char>::empty(),
        m.contains_key("WKN"@) && m["WKN"@] is Str ==> stock_from_members(m).wkn == m["WKN"@]->Str_0@,
        !(m.contains_key("ISIN"@) && m["ISIN"@] is Str) ==> stock_from_members(m).isin == Seq::<char>::empty(),
        m.contains_key("ISIN"@) && m["ISIN"@] is Str ==> stock_from_members(m).isin == m["ISIN"@]->Str_0@,
        !(m.contains_key("Country"@) && m["Country"@] is Str) ==> stock_from_members(m).country == Seq::<char>::empty(),
        m.contains_key("Country"@) && m["Country"@] is Str ==> stock_from_members(m).country == m["Country"@]->Str_0@,
        !(m.contains_key("Sector"@) && m["Sector"@] is Str) ==> stock_from_members(m).sector == Seq::<char>::empty(),
        m.contains_key("Sector"@) && m["Sector"@] is Str ==> stock_from_members(m).sector == m["Sector"@]->Str_0@,
        !(m.contains_key("Collection"@) && m["Collection"@] is Str) ==> stock_from_members(m).collection == Seq::<char>::empty(),
        m.contains_key("Collection"@) && m["Collection"@] is Str ==> stock_from_members(m).collection == m["Collection"@]->Str_0@,
        !(m.contains_key("Comment"@) && m["Comment"@] is Str) ==> stock_from_members(m).comment == Seq::<char>::empty(),
        m.contains_key("Comment"@) && m["Comment"@] is Str ==> stock_from_members(m).comment == m["Comment"@]->Str_0@,
        !(m.contains_key("OwnShares"@) && m["OwnShares"@] is Str) ==> stock_from_members(m).own_shares == Seq::<char>::empty(),
        m.contains_key("OwnShares"@) && m["OwnShares"@] is Str ==> stock_from_members(m).own_shares == m["OwnShares"@]->Str_0@,
        !(m.contains_key("TradePrice"@) && m["TradePrice"@] is Str) ==> stock_from_members(m).trade_price == Seq::<char>::empty(),
        m.contains_key("TradePrice"@) && m["TradePrice"@] is Str ==> stock_from_members(m).trade_price == m["TradePrice"@]->Str_0@,
        !(m.contains_key("TradeDate"@) && m["TradeDate"@] is Str) ==> stock_from_members(m).trade_date == Seq::<char>::empty(),
        m.contains_key("TradeDate"@) && m["TradeDate"@] is Str ==> stock_from_members(m).trade_date == m["TradeDate"@]->Str_0@,
        !(m.contains_key("Prices"@) && m["Prices"@] is Str) ==> stock_from_members(m).prices == Seq::<char>::empty(),
        m.contains_key("Prices"@) && m["Prices"@] is Str ==> stock_from_members(m).prices == m["Prices"@]->Str_0@,
        !(m.contains_key("LastPriceDate"@) && m["LastPriceDate"@] is Str) ==> stock_from_members(m).last_price_date == Seq::<char>::empty(),
        m.contains_key("LastPriceDate"@) && m["LastPriceDate"@] is Str ==> stock_from_members(m).last_price_date == m["LastPriceDate"@]->Str_0@,
        !(m.contains_key("DesiredPrice"@) && m["DesiredPrice"@] is Str) ==> stock_from_members(m).desired_price == Seq::<char>::empty(),
        m.contains_key("DesiredPrice"@) && m["DesiredPrice"@] is Str ==> stock_from_members(m).desired_price == m["DesiredPrice"@]->Str_0@,
        !(m.contains_key("ExpectedDividend"@) && m["ExpectedDividend"@] is Str) ==> stock_from_members(m).expected_dividend == Seq::<char>::empty(),
        m.contains_key("ExpectedDividend"@) && m["ExpectedDividend"@] is Str ==> stock_from_members(m).expected_dividend == m["ExpectedDividend"@]->Str_0@,
        !(m.contains_key("InquiryDate"@) && m["InquiryDate"@] is Str) ==> stock_from_members(m).inquiry_date == Seq::<char>::empty(),
        m.contains_key("InquiryDate"@) && m["InquiryDate"@] is Str ==> stock_from_members(m).inquiry_date == m["InquiryDate"@]->Str_0@,
        !(m.contains_key("OwningShares"@) && m["OwningShares"@] is Bool) ==> !stock_from_members(
            m,
        ).owning_shares,
        m.contains_key("OwningShares"@) && m["OwningShares"@] is Bool ==> stock_from_members(
            m,
        ).owning_shares == m["OwningShares"@]->Bool_0,
        !(m.contains_key("Interest"@) && m["Interest"@] is Ident) ==> stock_from_members(m).interest
            == Interest::Medium,
        m.contains_key("Interest"@) && m["Interest"@] is Ident ==> stock_from_members(m).interest
            == interest_from_ident(m["Interest"@]->Ident_0@),
        !(m.contains_key("WebPages"@) && m["WebPages"@] is Array) ==> stock_from_members(
            m,
        ).web_pages == Seq::<Seq<char>>::empty(),
        stock_from_members(Map::empty()) == default_stock_view(),
        default_stock_view().owning_shares == false,
        default_stock_view().interest == Interest::Medium,
        default_stock_view().web_pages == Seq::<Seq<char>>::empty(),
        default_stock_view().name == Seq::<char>::empty(),
{
    assert(stock_from_members(Map::empty()) == default_stock_view());
}

/// Reading back what a stock record wrote gives the same stock record.
pub proof fn lemma_stock_rec_round_trip(m: Map<Seq<char>, RecValue>, v: StockRecView)
    requires
        describes_stock(m, v),
    ensures
        stock_from_members(m) == v,
{
    lemma_interest_name_round_trip(v.interest);
    lemma_member_names();
}

} // verus!
