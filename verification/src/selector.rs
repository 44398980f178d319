//! The selector widget's decisions: its model, the messages it handles, and the
//! actions on its widgets and towards its parent that each message calls for.
use vstd::prelude::*;

use crate::civil::CivilDate;
use crate::clock::{
    calc_offset_for_midday,
    copy_zone,
    label_reads_back,
    labels_defined,
    lemma_midday_offset_lands_on_noon,
    lemma_midday_offset_reaches_midday,
    midday_offset,
    reaches_midday,
    time_labels,
    time_labels_for,
};
use crate::range::{
    current_range,
    current_range_available,
    get_current_timezone_range,
    opt_view,
    zone_selected,
};
use crate::catalogue::{lemma_zone_catalogue_is_unique, zone_catalogue};
use crate::tzdb::all_zone_names;

verus! {

/// What the selector knows: its place among the selectors, the date shown, the
/// base zone (that of the first selector) and the zone picked here.
pub struct TzSelectorModel {
    pub index: i32,
    pub for_date: CivilDate,
    pub base_timezone: Option<String>,
    pub this_timezone: Option<String>,
}

/// The model with its texts as character sequences.
pub struct ModelView {
    pub index: i32,
    pub for_date: CivilDate,
    pub base_timezone: Option<Seq<char>>,
    pub this_timezone: Option<Seq<char>>,
}

impl View for TzSelectorModel {
    type V = ModelView;

    open spec fn view(&self) -> ModelView {
        ModelView {
            index: self.index,
            for_date: self.for_date,
            base_timezone: opt_view(self.base_timezone),
            this_timezone: opt_view(self.this_timezone),
        }
    }
}

/// A value of the slider, carried as the bit pattern of its `f64` (the library
/// passes it on and never computes with it).
#[derive(Clone, Copy, Debug, PartialEq, Eq, Structural)]
pub struct SliderValue {
    pub bits: u64,
}

/// The messages a selector handles. Those named `NotifyParent…` go to the parent
/// window; those named `FromParent…` come from it.
pub enum Msg {
    /// The search text changed.
    SearchContentsChange,
    /// A key was released in the search entry; the key's name, where it has one.
    SearchKeyReleased(Option<String>),
    /// The search entry lost the focus; the text it holds.
    SearchLostFocus(String),
    /// The daylight band needs drawing.
    DrawIllumination,
    /// The remove button was clicked.
    RemoveTz,
    /// A zone was picked in the list; its id, where one is active.
    LocalTimezoneSelect(Option<String>),
    NotifyParentTimezoneSelectChanged(i32, String),
    /// The slider moved; its value rounded to a whole step.
    LocalTimeSelect(SliderValue),
    NotifyParentTimeSelectChanged(SliderValue),
    NotifyParentBaseTzChanged(String),
    NotifyParentTzSelectorRemoveClicked(i32),
    FromParentBaseTimeSelectChanged(SliderValue),
    FromParentBaseTimezoneChanged(Option<String>),
    FromParentDateChanged(CivilDate),
}

/// A message with its texts as character sequences.
pub enum MsgView {
    SearchContentsChange,
    SearchKeyReleased(Option<Seq<char>>),
    SearchLostFocus(Seq<char>),
    DrawIllumination,
    RemoveTz,
    LocalTimezoneSelect(Option<Seq<char>>),
    NotifyParentTimezoneSelectChanged(i32, Seq<char>),
    LocalTimeSelect(SliderValue),
    NotifyParentTimeSelectChanged(SliderValue),
    NotifyParentBaseTzChanged(Seq<char>),
    NotifyParentTzSelectorRemoveClicked(i32),
    FromParentBaseTimeSelectChanged(SliderValue),
    FromParentBaseTimezoneChanged(Option<Seq<char>>),
    FromParentDateChanged(CivilDate),
}

impl View for Msg {
    type V = MsgView;

    open spec fn view(&self) -> MsgView {
        match self {
            Msg::SearchContentsChange => MsgView::SearchContentsChange,
            Msg::SearchKeyReleased(k) => MsgView::SearchKeyReleased(opt_view(*k)),
            Msg::SearchLostFocus(t) => MsgView::SearchLostFocus(t@),
            Msg::DrawIllumination => MsgView::DrawIllumination,
            Msg::RemoveTz => MsgView::RemoveTz,
            Msg::LocalTimezoneSelect(z) => MsgView::LocalTimezoneSelect(opt_view(*z)),
            Msg::NotifyParentTimezoneSelectChanged(i, z) => MsgView::NotifyParentTimezoneSelectChanged(*i, z@),
            Msg::LocalTimeSelect(v) => MsgView::LocalTimeSelect(*v),
            Msg::NotifyParentTimeSelectChanged(v) => MsgView::NotifyParentTimeSelectChanged(*v),
            Msg::NotifyParentBaseTzChanged(z) => MsgView::NotifyParentBaseTzChanged(z@),
            Msg::NotifyParentTzSelectorRemoveClicked(i) => MsgView::NotifyParentTzSelectorRemoveClicked(*i),
            Msg::FromParentBaseTimeSelectChanged(v) => MsgView::FromParentBaseTimeSelectChanged(*v),
            Msg::FromParentBaseTimezoneChanged(z) => MsgView::FromParentBaseTimezoneChanged(opt_view(*z)),
            Msg::FromParentDateChanged(d) => MsgView::FromParentDateChanged(*d),
        }
    }
}

/// What the widget layer does in answer to a message, in order.
pub enum Action {
    /// Re-run the zone list's filter.
    RefilterZones,
    /// Pop up the zone list.
    PopupZoneList,
    /// Paint the daylight band with midday this many minutes after the slider's start.
    PaintDaylight(i64),
    /// Send a message on the selector's stream.
    Emit(Msg),
    /// Set the label at the start of the slider.
    SetStartLabel(String),
    /// Set the label at the end of the slider.
    SetEndLabel(String),
    /// Show the time picked on the slider again (from the slider's value and the
    /// start label, with `get_time_string_from_index`).
    RefreshTimeDisplay,
    /// Empty the search entry.
    ClearSearch,
    /// Move the slider to this value.
    SetSlider(SliderValue),
    /// Disable and hide the remove button.
    HideRemoveButton,
    /// Add a row with this zone name to the zone list.
    AddZoneRow(String),
    /// Make this zone the active entry of the zone list.
    SelectZone(String),
}

/// An action with its texts as character sequences.
pub enum ActionView {
    RefilterZones,
    PopupZoneList,
    PaintDaylight(i64),
    Emit(MsgView),
    SetStartLabel(Seq<char>),
    SetEndLabel(Seq<char>),
    RefreshTimeDisplay,
    ClearSearch,
    SetSlider(SliderValue),
    HideRemoveButton,
    AddZoneRow(Seq<char>),
    SelectZone(Seq<char>),
}

impl View for Action {
    type V = ActionView;

    open spec fn view(&self) -> ActionView {
        match self {
            Action::RefilterZones => ActionView::RefilterZones,
            Action::PopupZoneList => ActionView::PopupZoneList,
            Action::PaintDaylight(o) => ActionView::PaintDaylight(*o),
            Action::Emit(m) => ActionView::Emit(m@),
            Action::SetStartLabel(t) => ActionView::SetStartLabel(t@),
            Action::SetEndLabel(t) => ActionView::SetEndLabel(t@),
            Action::RefreshTimeDisplay => ActionView::RefreshTimeDisplay,
            Action::ClearSearch => ActionView::ClearSearch,
            Action::SetSlider(v) => ActionView::SetSlider(*v),
            Action::HideRemoveButton => ActionView::HideRemoveButton,
            Action::AddZoneRow(z) => ActionView::AddZoneRow(z@),
            Action::SelectZone(z) => ActionView::SelectZone(z@),
        }
    }
}

/// A label the action writes can be read back by `get_time_string_from_index`.
pub open spec fn action_label_reads_back(a: ActionView) -> bool {
    match a {
        ActionView::SetStartLabel(text) => label_reads_back(text),
        ActionView::SetEndLabel(text) => label_reads_back(text),
        _ => true,
    }
}

/// Every label the actions write can be read back.
pub open spec fn labels_read_back(actions: Seq<Action>) -> bool {
    forall|i: int| 0 <= i < actions.len() ==> action_label_reads_back(#[trigger] actions[i]@)
}

/// The views of a list of actions.
pub open spec fn actions_view(actions: Seq<Action>) -> Seq<ActionView> {
    actions.map_values(|a: Action| a@)
}

/// The selector's widgets' state is not part of it: the widget layer keeps the widgets.
pub struct TzSelector {
    pub model: TzSelectorModel,
}

/// The label actions of `update_time_labels` for a model.
pub open spec fn label_actions(m: ModelView) -> Seq<ActionView> {
    match time_labels(m.base_timezone, m.this_timezone, m.for_date) {
        Some((start, end)) => seq![ActionView::SetStartLabel(start), ActionView::SetEndLabel(end)],
        None => seq![],
    }
}

/// Where midday falls on the slider, when there is a base zone and a zone picked here.
pub open spec fn daylight_offset(m: ModelView) -> Option<i64> {
    match m.base_timezone {
        None => None,
        Some(b) => match current_range(b, m.this_timezone, m.for_date).0 {
            Some(start) => Some(midday_offset(start.time) as i64),
            None => None,
        },
    }
}

/// The paint action of the daylight band, if any.
pub open spec fn daylight_actions(m: ModelView) -> Seq<ActionView> {
    match daylight_offset(m) {
        Some(o) => seq![ActionView::PaintDaylight(o)],
        None => seq![],
    }
}

/// Handling the message does not panic: every label computation it makes can be done.
pub open spec fn update_defined(m: ModelView, e: MsgView) -> bool {
    match e {
        MsgView::DrawIllumination => labels_defined(m.base_timezone, m.this_timezone, m.for_date),
        MsgView::LocalTimezoneSelect(Some(z)) => labels_defined(m.base_timezone, Some(z), m.for_date),
        MsgView::FromParentBaseTimezoneChanged(z) => labels_defined(z, m.this_timezone, m.for_date),
        MsgView::FromParentDateChanged(d) => labels_defined(m.base_timezone, m.this_timezone, d),
        _ => true,
    }
}

/// The name of the key that opens the zone list from the search entry.
pub open spec fn return_key() -> Seq<char> {
    seq!['R', 'e', 't', 'u', 'r', 'n']
}

/// The model after a message, and the actions it calls for.
pub open spec fn step(m: ModelView, e: MsgView) -> (ModelView, Seq<ActionView>) {
    match e {
        MsgView::SearchContentsChange => (m, seq![ActionView::RefilterZones]),
        MsgView::SearchKeyReleased(key) => (
            m,
            if key == Some(return_key()) {
                seq![ActionView::PopupZoneList]
            } else {
                seq![]
            },
        ),
        MsgView::SearchLostFocus(text) => (
            m,
            if text.len() > 0 {
                seq![ActionView::PopupZoneList]
            } else {
                seq![]
            },
        ),
        MsgView::DrawIllumination => (m, daylight_actions(m)),
        MsgView::RemoveTz => (
            m,
            seq![ActionView::Emit(MsgView::NotifyParentTzSelectorRemoveClicked(m.index))],
        ),
        MsgView::LocalTimezoneSelect(None) => (m, seq![]),
        MsgView::LocalTimezoneSelect(Some(zone)) => {
            let m2 = ModelView { this_timezone: Some(zone), ..m };
            (
                m2,
                label_actions(m2) + seq![
                    ActionView::RefreshTimeDisplay,
                    ActionView::ClearSearch,
                    ActionView::Emit(MsgView::NotifyParentTimezoneSelectChanged(m.index, zone)),
                ] + if m.index == 0 {
                    seq![ActionView::Emit(MsgView::NotifyParentBaseTzChanged(zone))]
                } else {
                    seq![]
                },
            )
        },
        MsgView::LocalTimeSelect(v) => (
            m,
            seq![
                ActionView::Emit(MsgView::NotifyParentTimeSelectChanged(v)),
                ActionView::RefreshTimeDisplay,
            ],
        ),
        MsgView::NotifyParentTimezoneSelectChanged(_, _) => (m, seq![]),
        MsgView::NotifyParentTimeSelectChanged(_) => (m, seq![]),
        MsgView::NotifyParentBaseTzChanged(_) => (m, seq![]),
        MsgView::NotifyParentTzSelectorRemoveClicked(_) => (m, seq![]),
        MsgView::FromParentBaseTimeSelectChanged(v) => (
            m,
            seq![ActionView::SetSlider(v), ActionView::RefreshTimeDisplay],
        ),
        MsgView::FromParentBaseTimezoneChanged(zone) => {
            let m2 = ModelView { base_timezone: zone, ..m };
            (m2, label_actions(m2) + seq![ActionView::RefreshTimeDisplay])
        },
        MsgView::FromParentDateChanged(date) => {
            let m2 = ModelView { for_date: date, ..m };
            (m2, label_actions(m2) + seq![ActionView::RefreshTimeDisplay])
        },
    }
}

/// The actions before the zone rows when the widget is set up: the first selector
/// has no remove button.
pub open spec fn init_lead(m: ModelView) -> Seq<ActionView> {
    if m.index == 0 {
        seq![ActionView::HideRemoveButton]
    } else {
        seq![]
    }
}

/// The action after the zone rows when the widget is set up: the zone picked here
/// becomes the active entry.
pub open spec fn init_tail(m: ModelView) -> Seq<ActionView> {
    match m.this_timezone {
        Some(zone) => seq![ActionView::SelectZone(zone)],
        None => seq![],
    }
}

/// One action adding a row for each name, in order.
pub open spec fn zone_rows(names: Seq<Seq<char>>) -> Seq<ActionView> {
    names.map_values(|name: Seq<char>| ActionView::AddZoneRow(name))
}

/// The message reports something to the parent window.
pub open spec fn is_parent_notice(e: MsgView) -> bool {
    ||| e is NotifyParentTimezoneSelectChanged
    ||| e is NotifyParentTimeSelectChanged
    ||| e is NotifyParentBaseTzChanged
    ||| e is NotifyParentTzSelectorRemoveClicked
}

/// Whether the labels of a model can be computed.
fn labels_available(base: &Option<String>, this: &Option<String>, date: &CivilDate) -> (ok: bool)
    ensures
        ok == labels_defined(opt_view(*base), opt_view(*this), *date),
{
    match base {
        None => true,
        Some(b) => current_range_available(b.as_str(), this, date),
    }
}

fn push_action(actions: &mut Vec<Action>, action: Action)
    requires
        labels_read_back(old(actions)@),
        action_label_reads_back(action@),
    ensures
        final(actions)@ == old(actions)@.push(action),
        labels_read_back(final(actions)@),
{
    actions.push(action);
    assert forall|i: int| 0 <= i < actions@.len() implies action_label_reads_back(#[trigger] actions@[i]@) by {
        if i < actions@.len() - 1 {
            assert(actions@[i] == old(actions)@[i]);
        }
    }
}

fn push_label_actions(model: &TzSelectorModel, actions: &mut Vec<Action>)
    requires
        labels_defined(model@.base_timezone, model@.this_timezone, model@.for_date),
        labels_read_back(old(actions)@),
    ensures
        actions_view(final(actions)@) == actions_view(old(actions)@) + label_actions(model@),
        labels_read_back(final(actions)@),
{
    match time_labels_for(&model.base_timezone, &model.this_timezone, model.for_date) {
        Some((start, end)) => {
            push_action(actions, Action::SetStartLabel(start));
            push_action(actions, Action::SetEndLabel(end));
        },
        None => {},
    }
    assert(actions_view(final(actions)@) =~= actions_view(old(actions)@) + label_actions(model@));
}

impl TzSelector {
    /// The model of a selector made from (index, base zone, zone picked here, date).
    pub fn model(param: (i32, Option<String>, Option<String>, CivilDate)) -> (m: TzSelectorModel)
        ensures
            m.index == param.0,
            m.base_timezone == param.1,
            m.this_timezone == param.2,
            m.for_date == param.3,
    {
        let (index, base_timezone, this_timezone, for_date) = param;
        TzSelectorModel { index, for_date, base_timezone, this_timezone }
    }

    /// Sets the selector's place among the selectors.
    pub fn set_index(&mut self, index: i32)
        ensures
            final(self).model@ == (ModelView { index, ..old(self).model@ }),
    {
        self.model.index = index;
    }

    /// The labels at the start and end of the slider, `None` where they stay as
    /// they are (no base zone, or no zone picked here).
    pub fn update_time_labels(&self) -> (labels: Option<(String, String)>)
        requires
            labels_defined(self.model@.base_timezone, self.model@.this_timezone, self.model@.for_date),
        ensures
            match labels {
                Some((s, e)) => time_labels(
                    self.model@.base_timezone,
                    self.model@.this_timezone,
                    self.model@.for_date,
                ) == Some((s@, e@)),
                None => time_labels(
                    self.model@.base_timezone,
                    self.model@.this_timezone,
                    self.model@.for_date,
                ) is None,
            },
            labels matches Some((s, e)) ==> label_reads_back(s@) && label_reads_back(e@),
            self.model@.base_timezone is Some && self.model@.this_timezone == self.model@.base_timezone ==> (
            labels matches Some((s, e)) && s@ == seq!['1', '2', ':', '0', '0', ' ', 'a', 'm'] && e@ == seq![
                '1',
                '1',
                ':',
                '5',
                '9',
                ' ',
                'p',
                'm',
            ]),
    {
        time_labels_for(&self.model.base_timezone, &self.model.this_timezone, self.model.for_date)
    }

    /// `update_time_labels` where it does not panic; `None` where it would (an
    /// unknown zone name, or a base midnight or 23:59:59 that the base zone's clock
    /// skips or shows twice).
    pub fn checked_update_time_labels(&self) -> (labels: Option<Option<(String, String)>>)
        ensures
            match labels {
                Some(Some((s, e))) => labels_defined(
                    self.model@.base_timezone,
                    self.model@.this_timezone,
                    self.model@.for_date,
                ) && time_labels(self.model@.base_timezone, self.model@.this_timezone, self.model@.for_date)
                    == Some((s@, e@)),
                Some(None) => labels_defined(
                    self.model@.base_timezone,
                    self.model@.this_timezone,
                    self.model@.for_date,
                ) && time_labels(self.model@.base_timezone, self.model@.this_timezone, self.model@.for_date)
                    is None,
                None => !labels_defined(
                    self.model@.base_timezone,
                    self.model@.this_timezone,
                    self.model@.for_date,
                ),
            },
    {
        if labels_available(&self.model.base_timezone, &self.model.this_timezone, &self.model.for_date) {
            Some(self.update_time_labels())
        } else {
            None
        }
    }

    /// Where midday falls on the slider, in minutes after its start, for painting
    /// the daylight band; `None` where nothing is painted.
    pub fn draw_daytime_background(&self) -> (offset: Option<i64>)
        requires
            labels_defined(self.model@.base_timezone, self.model@.this_timezone, self.model@.for_date),
        ensures
            offset == daylight_offset(self.model@),
            offset is Some <==> (self.model@.base_timezone is Some && zone_selected(self.model@.this_timezone)),
            offset matches Some(o) ==> reaches_midday(
                current_range(self.model@.base_timezone->0, self.model@.this_timezone, self.model@.for_date).0->0.time,
                o as int,
            ),
    {
        let base = match &self.model.base_timezone {
            Some(b) => b.clone(),
            None => return None,
        };
        let (start, _, _, _) = get_current_timezone_range(
            base,
            copy_zone(&self.model.this_timezone),
            self.model.for_date,
        );
        match start {
            Some(s) => Some(calc_offset_for_midday(&s)),
            None => None,
        }
    }

    /// Handles a message: changes the model and returns, in order, what the widget
    /// layer is to do.
    pub fn update(&mut self, event: Msg) -> (actions: Vec<Action>)
        requires
            update_defined(old(self).model@, event@),
        ensures
            (final(self).model@, actions_view(actions@)) == step(old(self).model@, event@),
            labels_read_back(actions@),
    {
        let mut actions: Vec<Action> = Vec::new();
        match event {
            Msg::SearchContentsChange => {
                push_action(&mut actions, Action::RefilterZones);
            },
            Msg::SearchKeyReleased(key) => {
                if let Some(name) = key {
                    let return_name = "Return".to_owned();
                    proof {
                        reveal_strlit("Return");
                        assert(return_name@ =~= return_key());
                    }
                    if name == return_name {
                        push_action(&mut actions, Action::PopupZoneList);
                    }
                }
            },
            Msg::SearchLostFocus(text) => {
                if !text.as_str().is_empty() {
                    push_action(&mut actions, Action::PopupZoneList);
                }
            },
            Msg::DrawIllumination => {
                if let Some(offset) = self.draw_daytime_background() {
                    push_action(&mut actions, Action::PaintDaylight(offset));
                }
            },
            Msg::RemoveTz => {
                push_action(&mut actions, Action::Emit(Msg::NotifyParentTzSelectorRemoveClicked(self.model.index)));
            },
            Msg::NotifyParentTzSelectorRemoveClicked(_) => {},
            Msg::LocalTimezoneSelect(selected) => {
                let tz_string = match selected {
                    Some(s) => s,
                    None => {
                        assert(actions_view(actions@) =~= seq![]);
                        return actions;
                    },
                };
                self.model.this_timezone = Some(tz_string.clone());
                push_label_actions(&self.model, &mut actions);
                push_action(&mut actions, Action::RefreshTimeDisplay);
                push_action(&mut actions, Action::ClearSearch);
                push_action(&mut actions, 
                    Action::Emit(Msg::NotifyParentTimezoneSelectChanged(self.model.index, tz_string.clone())),
                );
                if self.model.index == 0 {
                    push_action(&mut actions, Action::Emit(Msg::NotifyParentBaseTzChanged(tz_string.clone())));
                }
            },
            Msg::LocalTimeSelect(value) => {
                push_action(&mut actions, Action::Emit(Msg::NotifyParentTimeSelectChanged(value)));
                push_action(&mut actions, Action::RefreshTimeDisplay);
            },
            Msg::NotifyParentTimezoneSelectChanged(_, _) => {},
            Msg::NotifyParentTimeSelectChanged(_) => {},
            Msg::NotifyParentBaseTzChanged(_) => {},
            Msg::FromParentBaseTimezoneChanged(new_zone) => {
                self.model.base_timezone = new_zone;
                push_label_actions(&self.model, &mut actions);
                push_action(&mut actions, Action::RefreshTimeDisplay);
            },
            Msg::FromParentBaseTimeSelectChanged(new_time) => {
                push_action(&mut actions, Action::SetSlider(new_time));
                push_action(&mut actions, Action::RefreshTimeDisplay);
            },
            Msg::FromParentDateChanged(new_date) => {
                self.model.for_date = new_date;
                push_label_actions(&self.model, &mut actions);
                push_action(&mut actions, Action::RefreshTimeDisplay);
            },
        }
        assert(actions_view(actions@) =~= step(old(self).model@, event@).1);
        actions
    }

    /// Whether `update` can handle the message without panicking.
    fn update_available(&self, event: &Msg) -> (ok: bool)
        ensures
            ok == update_defined(self.model@, event@),
    {
        match event {
            Msg::DrawIllumination => labels_available(
                &self.model.base_timezone,
                &self.model.this_timezone,
                &self.model.for_date,
            ),
            Msg::LocalTimezoneSelect(Some(zone)) => labels_available(
                &self.model.base_timezone,
                &Some(zone.clone()),
                &self.model.for_date,
            ),
            Msg::FromParentBaseTimezoneChanged(zone) => labels_available(
                zone,
                &self.model.this_timezone,
                &self.model.for_date,
            ),
            Msg::FromParentDateChanged(date) => labels_available(
                &self.model.base_timezone,
                &self.model.this_timezone,
                date,
            ),
            _ => true,
        }
    }

    /// `update` where it does not panic; otherwise `None`, with the model unchanged.
    pub fn try_update(&mut self, event: Msg) -> (actions: Option<Vec<Action>>)
        ensures
            match actions {
                Some(a) => update_defined(old(self).model@, event@) && (final(self).model@, actions_view(a@))
                    == step(old(self).model@, event@),
                None => !update_defined(old(self).model@, event@) && final(self).model@ == old(self).model@,
            },
    {
        if self.update_available(&event) {
            Some(self.update(event))
        } else {
            None
        }
    }

    /// What the widget layer does when it sets the selector up: hide the remove
    /// button of the first selector, add a row for each zone name chrono-tz
    /// knows (each once, in the order of their characters), and make the zone
    /// picked here the active one.
    pub fn init_view(&self) -> (actions: Vec<Action>)
        ensures
            actions_view(actions@) == init_lead(self.model@) + zone_rows(zone_catalogue()) + init_tail(
                self.model@,
            ),
    {
        let mut actions: Vec<Action> = Vec::new();
        if self.model.index == 0 {
            actions.push(Action::HideRemoveButton);
        }
        let ghost lead = actions_view(actions@);
        assert(lead =~= init_lead(self.model@));
        let names = all_zone_names();
        let ghost catalogue = names@.map_values(|n: String| n@);
        proof {
            lemma_zone_catalogue_is_unique(catalogue);
        }
        let mut i: usize = 0;
        while i < names.len()
            invariant
                i <= names@.len(),
                catalogue == names@.map_values(|n: String| n@),
                actions_view(actions@) == lead + zone_rows(catalogue.take(i as int)),
            decreases names@.len() - i,
        {
            let ghost before = actions@;
            let row = names[i].clone();
            assert(row@ == catalogue[i as int]);
            actions.push(Action::AddZoneRow(row));
            assert(actions@ == before.push(Action::AddZoneRow(row)));
            assert(actions_view(actions@) =~= actions_view(before).push(ActionView::AddZoneRow(catalogue[i as int])));
            assert(zone_rows(catalogue.take(i + 1)) =~= zone_rows(catalogue.take(i as int)).push(
                ActionView::AddZoneRow(catalogue[i as int]),
            ));
            i = i + 1;
        }
        assert(catalogue.take(i as int) =~= catalogue);
        match &self.model.this_timezone {
            Some(zone) => actions.push(Action::SelectZone(zone.clone())),
            None => {},
        }
        assert(actions_view(actions@) =~= init_lead(self.model@) + zone_rows(zone_catalogue()) + init_tail(
            self.model@,
        ));
        actions
    }
}

/// No message changes the selector's place among the selectors (only `set_index` does).
pub proof fn lemma_update_keeps_index(m: ModelView, e: MsgView)
    ensures
        step(m, e).0.index == m.index,
{
}

/// Messages meant for the parent window change nothing and call for nothing.
pub proof fn lemma_parent_notices_are_inert(m: ModelView, e: MsgView)
    requires
        is_parent_notice(e),
    ensures
        step(m, e).0 == m,
        step(m, e).1 == Seq::<ActionView>::empty(),
{
}

/// Only the first selector reports a new base zone, and only when a zone is picked
/// in it; what it reports is the zone picked.
pub proof fn lemma_only_first_selector_reports_base(m: ModelView, e: MsgView, i: int)
    requires
        0 <= i < step(m, e).1.len(),
        step(m, e).1[i] matches ActionView::Emit(MsgView::NotifyParentBaseTzChanged(_)),
    ensures
        m.index == 0,
        e matches MsgView::LocalTimezoneSelect(Some(zone)) && step(m, e).1[i] == ActionView::Emit(
            MsgView::NotifyParentBaseTzChanged(zone),
        ),
{
    match e {
        MsgView::LocalTimezoneSelect(Some(zone)) => {
            let m2 = ModelView { this_timezone: Some(zone), ..m };
            let n = label_actions(m2).len();
            assert(n == 0 || n == 2);
            if m.index != 0 {
                assert(step(m, e).1 =~= label_actions(m2) + seq![
                    ActionView::RefreshTimeDisplay,
                    ActionView::ClearSearch,
                    ActionView::Emit(MsgView::NotifyParentTimezoneSelectChanged(m.index, zone)),
                ]);
            }
        },
        MsgView::FromParentBaseTimezoneChanged(zone) => {
            let m2 = ModelView { base_timezone: zone, ..m };
            assert(label_actions(m2).len() == 0 || label_actions(m2).len() == 2);
        },
        MsgView::FromParentDateChanged(date) => {
            let m2 = ModelView { for_date: date, ..m };
            assert(label_actions(m2).len() == 0 || label_actions(m2).len() == 2);
        },
        _ => {},
    }
}

/// The messages a selector sends up carry its own index.
pub proof fn lemma_reports_carry_index(m: ModelView, e: MsgView, i: int)
    requires
        0 <= i < step(m, e).1.len(),
    ensures
        step(m, e).1[i] matches ActionView::Emit(MsgView::NotifyParentTimezoneSelectChanged(k, _)) ==> k == m.index,
        step(m, e).1[i] matches ActionView::Emit(MsgView::NotifyParentTzSelectorRemoveClicked(k)) ==> k == m.index,
{
    match e {
        MsgView::LocalTimezoneSelect(Some(zone)) => {
            let m2 = ModelView { this_timezone: Some(zone), ..m };
            assert(label_actions(m2).len() == 0 || label_actions(m2).len() == 2);
        },
        MsgView::FromParentBaseTimezoneChanged(zone) => {
            let m2 = ModelView { base_timezone: zone, ..m };
            assert(label_actions(m2).len() == 0 || label_actions(m2).len() == 2);
        },
        MsgView::FromParentDateChanged(date) => {
            let m2 = ModelView { for_date: date, ..m };
            assert(label_actions(m2).len() == 0 || label_actions(m2).len() == 2);
        },
        _ => {},
    }
}

/// Without a base zone the slider's labels are left as they are.
pub proof fn lemma_no_base_no_labels(m: ModelView)
    requires
        m.base_timezone is None,
    ensures
        label_actions(m) == Seq::<ActionView>::empty(),
        daylight_offset(m) is None,
{
}

/// Picking a zone records it as the zone shown here.
pub proof fn lemma_pick_records_zone(m: ModelView, zone: Seq<char>)
    ensures
        step(m, MsgView::LocalTimezoneSelect(Some(zone))).0 == (ModelView { this_timezone: Some(zone), ..m }),
{
}

/// The daylight band is painted exactly when there is a base zone and a zone is
/// selected.
pub proof fn lemma_daylight_needs_base_and_zone(m: ModelView)
    ensures
        daylight_offset(m) is Some <==> (m.base_timezone is Some && zone_selected(m.this_timezone)),
{
}

/// The daylight band's midday lies forward of the slider's start, within one day,
/// where the selected zone's clock shows midday: moving on that many minutes from
/// the start reaches 12:00 within the minute, and exactly 12:00 from a start on a
/// whole minute.
pub proof fn lemma_daylight_marks_midday(m: ModelView, o: i64)
    requires
        daylight_offset(m) == Some(o),
        current_range(m.base_timezone->0, m.this_timezone, m.for_date).0->0.time.wf(),
    ensures
        ({
            let start = current_range(m.base_timezone->0, m.this_timezone, m.for_date).0->0.time;
            &&& reaches_midday(start, o as int)
            &&& start.second == 0 ==> (start.hour * 60 + start.minute + o) % 1440 == 720
        }),
{
    let start = current_range(m.base_timezone->0, m.this_timezone, m.for_date).0->0.time;
    lemma_midday_offset_reaches_midday(start);
    if start.second == 0 {
        lemma_midday_offset_lands_on_noon(start);
    }
}

/// After a change of date, of base zone or of the zone picked here, the labels set
/// are those of the model as it stands after the change.
pub proof fn lemma_labels_follow_the_new_model(m: ModelView, e: MsgView)
    requires
        e is FromParentDateChanged || e is FromParentBaseTimezoneChanged || e matches MsgView::LocalTimezoneSelect(Some(_)),
    ensures
        step(m, e).1.subrange(0, label_actions(step(m, e).0).len() as int) == label_actions(step(m, e).0),
        step(m, e).1[label_actions(step(m, e).0).len() as int] == ActionView::RefreshTimeDisplay,
        e is FromParentDateChanged || e is FromParentBaseTimezoneChanged ==> step(m, e).1 == label_actions(
            step(m, e).0,
        ) + seq![ActionView::RefreshTimeDisplay],
{
    let n = label_actions(step(m, e).0).len() as int;
    assert(n == 0 || n == 2);
    assert(step(m, e).1.subrange(0, n) =~= label_actions(step(m, e).0));
}

/// What a change of date calls for does not depend on the date shown before.
pub proof fn lemma_date_change_forgets_old_date(m1: ModelView, m2: ModelView, date: CivilDate)
    requires
        m1.index == m2.index,
        m1.base_timezone == m2.base_timezone,
        m1.this_timezone == m2.this_timezone,
    ensures
        step(m1, MsgView::FromParentDateChanged(date)) == step(m2, MsgView::FromParentDateChanged(date)),
{
    assert(ModelView { for_date: date, ..m1 } == ModelView { for_date: date, ..m2 });
}

/// What a change of base zone calls for does not depend on the base zone before.
pub proof fn lemma_base_change_forgets_old_base(m1: ModelView, m2: ModelView, zone: Option<Seq<char>>)
    requires
        m1.index == m2.index,
        m1.for_date == m2.for_date,
        m1.this_timezone == m2.this_timezone,
    ensures
        step(m1, MsgView::FromParentBaseTimezoneChanged(zone)) == step(
            m2,
            MsgView::FromParentBaseTimezoneChanged(zone),
        ),
{
    assert(ModelView { base_timezone: zone, ..m1 } == ModelView { base_timezone: zone, ..m2 });
}

/// What picking a zone calls for does not depend on the zone picked before.
pub proof fn lemma_pick_forgets_old_zone(m1: ModelView, m2: ModelView, zone: Seq<char>)
    requires
        m1.index == m2.index,
        m1.for_date == m2.for_date,
        m1.base_timezone == m2.base_timezone,
    ensures
        step(m1, MsgView::LocalTimezoneSelect(Some(zone))) == step(m2, MsgView::LocalTimezoneSelect(Some(zone))),
{
    assert(ModelView { this_timezone: Some(zone), ..m1 } == ModelView { this_timezone: Some(zone), ..m2 });
}

} // verus!
