//! The settings document and its parts.
use vstd::prelude::*;

verus! {

/// A dated entry of the user's calendar.
#[derive(Clone, Debug, PartialEq)]
pub struct CalendarEvent {
    pub id: String,
    /// An ISO-8601 date, such as `2024-05-01`.
    pub date: String,
    pub title: String,
    pub description: Option<String>,
}

/// The calendar: events in the order the caller gave them.
#[derive(Clone, Debug, PartialEq)]
pub struct CalendarState {
    pub events: Vec<CalendarEvent>,
}

/// One financial holding.
///
/// The amount is a binary64 floating-point value; it is carried here as its
/// IEEE-754 bit pattern, so that it passes through unchanged.
#[derive(Clone, Debug, PartialEq)]
pub struct Holding {
    pub id: String,
    /// The holding's category tag (its `type` in the stored document).
    pub kind: String,
    pub name: String,
    pub amount_bits: u64,
}

/// The portfolio: holdings in the order the caller gave them; ids need not be unique.
#[derive(Clone, Debug, PartialEq)]
pub struct PortfolioState {
    pub holdings: Vec<Holding>,
}

/// One free-text note on the user's investment style.
#[derive(Clone, Debug, PartialEq)]
pub struct InvestmentStyleItem {
    pub id: String,
    pub description: String,
}

/// The investment-style notes, in the order the caller gave them.
#[derive(Clone, Debug, PartialEq)]
pub struct InvestmentStyleState {
    pub items: Vec<InvestmentStyleItem>,
}

/// The whole settings document. Every field may be absent.
#[derive(Clone, Debug, PartialEq)]
pub struct AppConfig {
    pub api_key: Option<String>,
    pub endpoint_url: Option<String>,
    pub portfolio: Option<PortfolioState>,
    pub investment_style: Option<InvestmentStyleState>,
    pub calendar: Option<CalendarState>,
    pub model: Option<String>,
}

/// The document with every field absent: what a store that was never written holds.
pub open spec fn empty_config() -> AppConfig {
    AppConfig {
        api_key: None,
        endpoint_url: None,
        portfolio: None,
        investment_style: None,
        calendar: None,
        model: None,
    }
}

impl AppConfig {
    /// True when no field of the document is present.
    pub open spec fn is_blank(&self) -> bool {
        &&& self.api_key is None
        &&& self.endpoint_url is None
        &&& self.portfolio is None
        &&& self.investment_style is None
        &&& self.calendar is None
        &&& self.model is None
    }
}

impl Default for AppConfig {
    fn default() -> (r: AppConfig)
        ensures
            r == empty_config(),
            r.is_blank(),
    {
        AppConfig {
            api_key: None,
            endpoint_url: None,
            portfolio: None,
            investment_style: None,
            calendar: None,
            model: None,
        }
    }
}

} // verus!
