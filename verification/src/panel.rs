//! What a panel shows while it has no rows: it is loading, it is empty, or it
//! failed.

use crate::line::{no_lines, page, push_line, Line, Tone};
use crate::model::PanelFailure;
use crate::text::{cat2, cat3, own};
use vstd::prelude::*;

verus! {

/// Why a panel has no rows.
#[derive(Debug)]
pub enum PanelState<'a> {
    Loading,
    Empty { hint: String },
    Failed(&'a PanelFailure),
}

/// The model of [`PanelState`].
pub enum PanelModel {
    Loading,
    Empty(Seq<char>),
    Failed(PanelFailure),
}

impl<'a> View for PanelState<'a> {
    type V = PanelModel;

    open spec fn view(&self) -> PanelModel {
        match self {
            PanelState::Loading => PanelModel::Loading,
            PanelState::Empty { hint } => PanelModel::Empty(hint@),
            PanelState::Failed(f) => PanelModel::Failed(**f),
        }
    }
}

/// The panel's lines: a failure is loud and names its reason and the key that
/// tries again; the other two are calm.
pub open spec fn panel_page(state: PanelModel) -> Seq<Seq<(Tone, Seq<char>)>> {
    match state {
        PanelModel::Loading => seq![seq![(Tone::Plain, "loading…"@)]],
        PanelModel::Empty(hint) => seq![seq![(Tone::Muted, hint)]],
        PanelModel::Failed(f) => seq![
            seq![(Tone::DangerBold, "✖ "@ + f.headline@)],
            seq![(Tone::Muted, f.reason@)],
            seq![(Tone::Muted, "press "@ + seq![f.retry_key] + " to retry"@)],
        ],
    }
}

/// The panel's lines.
pub fn panel_lines(state: &PanelState) -> (res: Vec<Line>)
    ensures
        page(res@) == panel_page(state@),
{
    let mut lines = no_lines();
    match state {
        PanelState::Loading => push_line(&mut lines, Line::of(Tone::Plain, own("loading…"))),
        PanelState::Empty { hint } => push_line(&mut lines, Line::of(Tone::Muted, hint.clone())),
        PanelState::Failed(f) => {
            let mut key = String::new();
            key.push(f.retry_key);
            assert(key@ =~= seq![f.retry_key]);
            push_line(
                &mut lines,
                Line::of(Tone::DangerBold, cat2("✖ ", f.headline.as_str())),
            );
            push_line(&mut lines, Line::of(Tone::Muted, f.reason.clone()));
            push_line(
                &mut lines,
                Line::of(Tone::Muted, cat3("press ", key.as_str(), " to retry")),
            );
        },
    }
    assert(page(lines@) =~~= panel_page(state@));
    lines
}

/// A failure is loud: it names what could not be loaded, why, and the key that tries again.
pub proof fn a_failure_names_its_reason(f: PanelFailure)
    ensures
        panel_page(PanelModel::Failed(f)).len() == 3,
        panel_page(PanelModel::Failed(f))[0][0].0 == Tone::DangerBold,
        panel_page(PanelModel::Failed(f))[0][0].1 == "✖ "@ + f.headline@,
        panel_page(PanelModel::Failed(f))[1][0].1 == f.reason@,
        panel_page(PanelModel::Failed(f))[2][0].1 == "press "@ + seq![f.retry_key] + " to retry"@,
        panel_page(PanelModel::Loading)[0][0].0 != Tone::DangerBold,
{
}

} // verus!
