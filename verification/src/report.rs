//! The lines that a session prints.

use crate::text::{append_decimal, decimal, Text};
use vstd::prelude::*;
use vstd::string::*;

verus! {

/// A responder as the contracts see it.
pub struct IdentityView {
    pub name: Text,
    pub address: Text,
}

impl IdentityView {
    /// The identity of the responder at `address`, given what the reverse
    /// lookup of that address found. Where it found no name, the address
    /// stands in for it.
    pub open spec fn of(address: Text, name: Option<Text>) -> IdentityView {
        match name {
            Some(name) => IdentityView { name, address },
            None => IdentityView { name: address, address },
        }
    }
}

/// Who answered a probe: the name to show and the address it was sent from.
#[derive(Debug, PartialEq, Eq)]
pub struct ResponderIdentity {
    pub name: String,
    pub address: String,
}

impl View for ResponderIdentity {
    type V = IdentityView;

    open spec fn view(&self) -> IdentityView {
        IdentityView { name: self.name@, address: self.address@ }
    }
}

impl ResponderIdentity {
    /// The identity of the responder at `address`, given the name that the
    /// reverse lookup found, if it found one. A failed lookup costs the name
    /// and nothing else: the address is shown in its place.
    pub fn of(address: String, name: Option<String>) -> (identity: ResponderIdentity)
        ensures
            identity@ == IdentityView::of(
                address@,
                match name {
                    Some(name) => Some(name@),
                    None => None,
                },
            ),
    {
        match name {
            Some(name) => ResponderIdentity { name, address },
            None => ResponderIdentity { name: address.clone(), address },
        }
    }
}

/// The outcome of one hop as the contracts see it.
pub enum HopResultView {
    Visible(IdentityView),
    Unreachable,
}

/// The outcome of one hop: the first responder that was heard within the
/// hop's window, or nobody.
#[derive(Debug, PartialEq, Eq)]
pub enum HopResult {
    Visible(ResponderIdentity),
    Unreachable,
}

impl View for HopResult {
    type V = HopResultView;

    open spec fn view(&self) -> HopResultView {
        match self {
            HopResult::Visible(identity) => HopResultView::Visible(identity@),
            HopResult::Unreachable => HopResultView::Unreachable,
        }
    }
}

/// A line as the contracts see it.
pub enum LineView {
    Heading { hostname: Text },
    Hop { ttl: u32, result: HopResultView },
    Diagnostic { detail: Text },
}

impl LineView {
    /// Whether this line reports the outcome of a hop.
    pub open spec fn is_hop(self) -> bool {
        self is Hop
    }

    /// The characters of this line, without a line break.
    pub open spec fn text(self) -> Text {
        match self {
            LineView::Heading { hostname } => "Tracing route to: "@ + hostname,
            LineView::Hop { ttl, result: HopResultView::Visible(identity) } => decimal(ttl as nat)
                + " "@ + identity.name + " ("@ + identity.address + ")"@,
            LineView::Hop { ttl, result: HopResultView::Unreachable } => "* * *"@,
            LineView::Diagnostic { detail } => "Something went wrong: "@ + detail,
        }
    }
}

/// The lines among `lines` that report the outcome of a hop, in order.
pub open spec fn hop_lines(lines: Seq<LineView>) -> Seq<LineView> {
    lines.filter(|line: LineView| line.is_hop())
}

/// The outcomes in two runs of lines, one after the other, are the outcomes
/// in the first followed by those in the second.
pub proof fn lemma_hop_lines_of_sum(first: Seq<LineView>, second: Seq<LineView>)
    ensures
        hop_lines(first + second) == hop_lines(first) + hop_lines(second),
{
    Seq::filter_distributes_over_add(first, second, |line: LineView| line.is_hop());
}

/// The outcomes among at most two lines.
pub proof fn lemma_hop_lines_of_few(lines: Seq<LineView>)
    requires
        lines.len() <= 2,
    ensures
        lines.len() == 0 ==> hop_lines(lines) == Seq::<LineView>::empty(),
        lines.len() == 1 && lines[0].is_hop() ==> hop_lines(lines) == lines,
        lines.len() == 1 && !lines[0].is_hop() ==> hop_lines(lines) == Seq::<LineView>::empty(),
        lines.len() == 2 && !lines[0].is_hop() && lines[1].is_hop() ==> hop_lines(lines)
            == seq![lines[1]],
{
    reveal_with_fuel(Seq::filter, 3);
    if lines.len() == 1 {
        assert(lines.drop_last() =~= Seq::<LineView>::empty());
        if lines[0].is_hop() {
            assert(hop_lines(lines) =~= lines);
        }
    } else if lines.len() == 2 {
        assert(lines.drop_last().drop_last() =~= Seq::<LineView>::empty());
        if !lines[0].is_hop() && lines[1].is_hop() {
            assert(hop_lines(lines) =~= seq![lines[1]]);
        }
    }
}

/// One line of a session's output.
#[derive(Debug, PartialEq, Eq)]
pub enum Line {
    /// Says which host is traced, before anything else.
    Heading { hostname: String },
    /// The outcome of the hop that the probe with this time-to-live reached.
    Hop { ttl: u32, result: HopResult },
    /// A failure that does not change the outcome of any hop.
    Diagnostic { detail: String },
}

impl View for Line {
    type V = LineView;

    open spec fn view(&self) -> LineView {
        match self {
            Line::Heading { hostname } => LineView::Heading { hostname: hostname@ },
            Line::Hop { ttl, result } => LineView::Hop { ttl: *ttl, result: result@ },
            Line::Diagnostic { detail } => LineView::Diagnostic { detail: detail@ },
        }
    }
}

impl DeepView for Line {
    type V = LineView;

    open spec fn deep_view(&self) -> LineView {
        self@
    }
}

impl Line {
    /// Whether this line reports the outcome of a hop.
    pub fn is_hop(&self) -> (hop: bool)
        ensures
            hop == self@.is_hop(),
    {
        match self {
            Line::Hop { .. } => true,
            _ => false,
        }
    }

    /// The characters of this line, without a line break.
    pub fn render(&self) -> (text: String)
        ensures
            text@ == self@.text(),
    {
        match self {
            Line::Heading { hostname } => {
                let mut text: String = String::from_str("Tracing route to: ");
                text.append(hostname.as_str());
                text
            },
            Line::Hop { ttl, result: HopResult::Visible(identity) } => {
                let mut text: String = String::new();
                append_decimal(&mut text, *ttl);
                text.append(" ");
                text.append(identity.name.as_str());
                text.append(" (");
                text.append(identity.address.as_str());
                text.append(")");
                assert(text@ =~= self@.text());
                text
            },
            Line::Hop { ttl, result: HopResult::Unreachable } => String::from_str("* * *"),
            Line::Diagnostic { detail } => {
                let mut text: String = String::from_str("Something went wrong: ");
                text.append(detail.as_str());
                text
            },
        }
    }
}

} // verus!
