//! The events-list parser: one page of tournament listings, split into
//! an upcoming and a completed column.

use vstd::prelude::*;
use vstd::string::*;

use crate::dom;
use crate::error::VlrError;
use crate::numbers::{is_unsigned_text, parse_u32_opt, parse_u8_opt, unsigned_value};
use crate::text::{chars_eq_str, chars_to_lower, chars_to_string, str_chars, to_lower, trim_chars, trimmed};
use crate::utils::{class_with_prefix, href_id_slug, normalize_img_url, normalized_url, split_id_slug};

verus! {

/// Filter for the type of events to retrieve.
#[derive(Debug, Clone, Copy, PartialEq, Eq, Hash, Structural)]
pub enum EventType {
    Upcoming,
    Completed,
}

/// The current status of an event.
#[derive(Debug, Clone, Copy, PartialEq, Eq, Structural)]
pub enum EventStatus {
    Completed,
    Ongoing,
    Upcoming,
    Unknown,
}

/// The status a status label maps to: a case-insensitive lookup of the
/// known words, everything else being Unknown.
pub open spec fn status_of_text(s: Seq<char>) -> EventStatus {
    let l = to_lower(s);
    if l == "ongoing"@ {
        EventStatus::Ongoing
    } else if l == "upcoming"@ {
        EventStatus::Upcoming
    } else if l == "completed"@ {
        EventStatus::Completed
    } else {
        EventStatus::Unknown
    }
}

impl EventStatus {
    /// Map a status label to its status, case-insensitively.
    pub fn from_text(s: &str) -> (r: EventStatus)
        ensures
            r == status_of_text(s@),
    {
        let v = str_chars(s);
        let l = chars_to_lower(&v);
        if chars_eq_str(&l, "ongoing") {
            EventStatus::Ongoing
        } else if chars_eq_str(&l, "upcoming") {
            EventStatus::Upcoming
        } else if chars_eq_str(&l, "completed") {
            EventStatus::Completed
        } else {
            EventStatus::Unknown
        }
    }
}

impl Default for EventStatus {
    /// Unrecognized status text falls back to this value.
    fn default() -> (r: EventStatus)
        ensures
            r == EventStatus::Unknown,
    {
        EventStatus::Unknown
    }
}

impl From<String> for EventStatus {
    fn from(s: String) -> (r: EventStatus) {
        EventStatus::from_text(s.as_str())
    }
}

impl vstd::std_specs::convert::FromSpecImpl<String> for EventStatus {
    open spec fn obeys_from_spec() -> bool {
        true
    }

    open spec fn from_spec(s: String) -> EventStatus {
        status_of_text(s@)
    }
}

/// A single esports event (tournament or league).
#[derive(Debug, Clone)]
pub struct Event {
    pub status: EventStatus,
    pub region: String,
    pub id: u32,
    pub title: String,
    pub slug: String,
    pub href: String,
    pub icon_url: String,
    pub price: String,
    pub dates: String,
}

/// Paginated response containing a list of events.
#[derive(Debug, Clone)]
pub struct EventsData {
    pub events: Vec<Event>,
    pub page: u8,
    pub total_pages: u8,
}

fn compile(expr: &str) -> Result<scraper::Selector, VlrError> {
    match dom::compile_selector(expr) {
        Some(sel) => Ok(sel),
        None => Err(VlrError::Selector(String::from_str(expr))),
    }
}

/// Parse one event card. Fails only when the id in the card's link
/// cannot be read as a number.
/// Assemble one event from the values extracted off its card: the id
/// and slug from the detail-link path, the absolute link and icon URL,
/// the case-insensitively mapped status, and the trimmed region code.
/// Fails exactly when the link path yields no id that fits 32 bits.
pub fn build_event(
    href: &str,
    icon_src: &Option<String>,
    title: String,
    status_text: &str,
    price: String,
    dates: String,
    region_code: &Option<String>,
) -> (r: Result<Event, VlrError>)
    ensures
        ({
            let parts = href_id_slug(href@, "/event/"@);
            match r {
                Ok(e) => {
                    &&& is_unsigned_text(parts.0) && unsigned_value(parts.0) <= u32::MAX
                    &&& e.id == unsigned_value(parts.0)
                    &&& e.slug@ == parts.1
                    &&& e.href@ == "https://www.vlr.gg"@ + href@
                    &&& e.status == status_of_text(status_text@)
                    &&& e.title == title
                    &&& e.price == price
                    &&& e.dates == dates
                    &&& match icon_src {
                        Some(src) => e.icon_url@ == normalized_url(src@),
                        None => e.icon_url@.len() == 0,
                    }
                    &&& match region_code {
                        Some(code) => e.region@ == trimmed(code@),
                        None => e.region@.len() == 0,
                    }
                },
                Err(_) => !(is_unsigned_text(parts.0) && unsigned_value(parts.0) <= u32::MAX),
            }
        }),
{
    let href_chars = str_chars(href);
    let (id_chars, slug_chars) = split_id_slug(&href_chars, "/event/");
    let id = match parse_u32_opt(&id_chars) {
        Some(id) => id,
        None => {
            return Err(VlrError::IntParse(chars_to_string(&id_chars)));
        },
    };
    let slug = chars_to_string(&slug_chars);
    let mut full_href = String::from_str("https://www.vlr.gg");
    full_href.append(href);
    let icon_url = match icon_src {
        Some(src) => normalize_img_url(src.as_str()),
        None => String::new(),
    };
    let status = EventStatus::from_text(status_text);
    let region = match region_code {
        Some(code) => {
            let code_chars = str_chars(code.as_str());
            let t = trim_chars(&code_chars);
            chars_to_string(&t)
        },
        None => String::new(),
    };
    Ok(Event { status, region, id, title, slug, href: full_href, icon_url, price, dates })
}

fn parse_event(doc: &scraper::Html, node: ego_tree::NodeId) -> Result<Event, VlrError> {
    let href = match dom::node_attr(doc, node, "href") {
        Some(h) => h,
        None => String::new(),
    };

    let icon_sel = compile("div.event-item-thumb img")?;
    let icon_src = dom::select_attr_opt(doc, node, &icon_sel, "src");

    let title_sel = compile("div.event-item-inner div.event-item-title")?;
    let title = dom::select_text(doc, node, &title_sel);

    let status_sel = compile(
        "div.event-item-inner div.event-item-desc-item span.event-item-desc-item-status",
    )?;
    let status_text = dom::select_text(doc, node, &status_sel);

    let price_sel = compile("div.event-item-inner div.event-item-desc-item.mod-prize")?;
    let price = dom::select_text(doc, node, &price_sel);

    let dates_sel = compile("div.event-item-inner div.event-item-desc-item.mod-dates")?;
    let dates = dom::select_text(doc, node, &dates_sel);

    let region_sel = compile("div.event-item-inner div.event-item-desc-item.mod-location i")?;
    let region_code = {
        let found = dom::select_within(doc, node, &region_sel);
        if found.len() == 0 {
            None
        } else {
            let classes = dom::node_classes(doc, found[0]);
            class_with_prefix(&classes, "mod-")
        }
    };

    build_event(
        href.as_str(),
        &icon_src,
        title,
        status_text.as_str(),
        price,
        dates,
        &region_code,
    )
}

/// Parse the event cards of the column the event type selects.
///
/// Every entry of the result carries a non-zero id: a card whose id is
/// missing, unreadable or zero is dropped rather than reported.
pub fn parse_events(event_type: &EventType, doc: &scraper::Html) -> (r: Result<
    Vec<Event>,
    VlrError,
>)
    ensures
        r matches Ok(events) ==> forall|i: int| 0 <= i < events@.len() ==> events@[i].id != 0,
{
    let expr = match event_type {
        EventType::Upcoming => {
            "div#wrapper div.events-container div.events-container-col:first-child a.event-item"
        },
        EventType::Completed => {
            "div#wrapper div.events-container div.events-container-col:last-child a.event-item"
        },
    };
    let sel = compile(expr)?;
    let nodes = dom::select_document(doc, &sel);
    let mut events: Vec<Event> = Vec::new();
    let mut i: usize = 0;
    while i < nodes.len()
        invariant
            forall|j: int| 0 <= j < events@.len() ==> events@[j].id != 0,
        decreases nodes@.len() - i,
    {
        match parse_event(doc, nodes[i]) {
            Ok(e) => {
                if e.id != 0 {
                    events.push(e);
                }
            },
            Err(_) => {},
        }
        i = i + 1;
    }
    Ok(events)
}

/// The page count a pager label yields: the label's text parsed as a
/// page number, or a single page when the label is absent or its text
/// is not a number in range.
pub fn pager_value(text: &Option<String>) -> (r: u8)
    ensures
        r as int == (match text {
            Some(t) => {
                if is_unsigned_text(t@) && unsigned_value(t@) <= u8::MAX {
                    unsigned_value(t@)
                } else {
                    1
                }
            },
            None => 1,
        }),
{
    match text {
        Some(t) => {
            let chars = str_chars(t.as_str());
            match parse_u8_opt(&chars) {
                Some(n) => n,
                None => {
                    proof {
                        if is_unsigned_text(t@) {
                            crate::numbers::lemma_digits_value_nonneg(
                                crate::numbers::unsigned_digits(t@),
                            );
                        }
                    }
                    1
                },
            }
        },
        None => 1,
    }
}

/// Read the total page count from the pager of the chosen column: the
/// last pager element's first text through [`pager_value`], so absence
/// or an unreadable label means a single page.
pub fn parse_total_pages(event_type: EventType, doc: &scraper::Html) -> Result<u8, VlrError> {
    let expr = match event_type {
        EventType::Upcoming => {
            "div#wrapper div.action-container div.action-container-pages:first-child :is(span,a)"
        },
        EventType::Completed => {
            "div#wrapper div.action-container div.action-container-pages:last-child :is(span,a)"
        },
    };
    let sel = compile(expr)?;
    let nodes = dom::select_document(doc, &sel);
    let label: Option<String> = if nodes.len() == 0 {
        None
    } else {
        let texts = dom::node_texts(doc, nodes[nodes.len() - 1]);
        if texts.len() == 0 {
            None
        } else {
            Some(texts[0].clone())
        }
    };
    Ok(pager_value(&label))
}

/// Parse a whole events page: the chosen column's cards plus the page
/// count, stamped with the requested page number.
pub fn parse_events_data(doc: &scraper::Html, event_type: EventType, page: u8) -> (r: Result<
    EventsData,
    VlrError,
>)
    ensures
        r matches Ok(data) ==> data.page == page && forall|i: int|
            0 <= i < data.events@.len() ==> data.events@[i].id != 0,
{
    let events = parse_events(&event_type, doc)?;
    let total_pages = parse_total_pages(event_type, doc)?;
    Ok(EventsData { events, page, total_pages })
}

} // verus!
