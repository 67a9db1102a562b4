use vstd::prelude::*;

verus! {

/// Criterion by which the file manager sorts directory entries, in the
/// order of the control panel's radio buttons.
#[derive(Debug, Clone, Copy, PartialEq, Eq, Structural)]
pub enum SortCriterion {
    ByName,
    ByEnding,
    ByClass,
    ByVersion,
    ByDate,
    BySize,
}

/// How names are compared when sorting, in the order of the control
/// panel's radio buttons.
#[derive(Debug, Clone, Copy, PartialEq, Eq, Structural)]
pub enum NameSortingStyle {
    PerLocale,
    CaseSensitive,
    CaseInsensitive,
}

/// The position of a sort criterion among the radio buttons.
pub open spec fn sort_criterion_position(c: SortCriterion) -> int {
    match c {
        SortCriterion::ByName => 0,
        SortCriterion::ByEnding => 1,
        SortCriterion::ByClass => 2,
        SortCriterion::ByVersion => 3,
        SortCriterion::ByDate => 4,
        SortCriterion::BySize => 5,
    }
}

/// The position of a name sorting style among the radio buttons.
pub open spec fn name_sorting_style_position(s: NameSortingStyle) -> int {
    match s {
        NameSortingStyle::PerLocale => 0,
        NameSortingStyle::CaseSensitive => 1,
        NameSortingStyle::CaseInsensitive => 2,
    }
}

/// The sort criterion of radio button `i`, if there is such a button.
pub open spec fn sort_criterion_at(i: int) -> Option<SortCriterion> {
    if i == 0 {
        Some(SortCriterion::ByName)
    } else if i == 1 {
        Some(SortCriterion::ByEnding)
    } else if i == 2 {
        Some(SortCriterion::ByClass)
    } else if i == 3 {
        Some(SortCriterion::ByVersion)
    } else if i == 4 {
        Some(SortCriterion::ByDate)
    } else if i == 5 {
        Some(SortCriterion::BySize)
    } else {
        None
    }
}

/// The name sorting style of radio button `i`, if there is such a button.
pub open spec fn name_sorting_style_at(i: int) -> Option<NameSortingStyle> {
    if i == 0 {
        Some(NameSortingStyle::PerLocale)
    } else if i == 1 {
        Some(NameSortingStyle::CaseSensitive)
    } else if i == 2 {
        Some(NameSortingStyle::CaseInsensitive)
    } else {
        None
    }
}

/// The radio button of a sort criterion.
pub fn sort_criterion_index(c: SortCriterion) -> (i: usize)
    ensures
        i == sort_criterion_position(c),
{
    match c {
        SortCriterion::ByName => 0,
        SortCriterion::ByEnding => 1,
        SortCriterion::ByClass => 2,
        SortCriterion::ByVersion => 3,
        SortCriterion::ByDate => 4,
        SortCriterion::BySize => 5,
    }
}

/// The sort criterion of radio button `i`, if there is such a button.
pub fn sort_criterion_from_index(i: usize) -> (c: Option<SortCriterion>)
    ensures
        c == sort_criterion_at(i as int),
{
    match i {
        0 => Some(SortCriterion::ByName),
        1 => Some(SortCriterion::ByEnding),
        2 => Some(SortCriterion::ByClass),
        3 => Some(SortCriterion::ByVersion),
        4 => Some(SortCriterion::ByDate),
        5 => Some(SortCriterion::BySize),
        _ => None,
    }
}

/// The radio button of a name sorting style.
pub fn name_sorting_style_index(s: NameSortingStyle) -> (i: usize)
    ensures
        i == name_sorting_style_position(s),
{
    match s {
        NameSortingStyle::PerLocale => 0,
        NameSortingStyle::CaseSensitive => 1,
        NameSortingStyle::CaseInsensitive => 2,
    }
}

/// The name sorting style of radio button `i`, if there is such a button.
pub fn name_sorting_style_from_index(i: usize) -> (s: Option<NameSortingStyle>)
    ensures
        s == name_sorting_style_at(i as int),
{
    match i {
        0 => Some(NameSortingStyle::PerLocale),
        1 => Some(NameSortingStyle::CaseSensitive),
        2 => Some(NameSortingStyle::CaseInsensitive),
        _ => None,
    }
}

/// The label of the radio button of a sort criterion.
pub open spec fn sort_criterion_caption(c: SortCriterion) -> Seq<char> {
    match c {
        SortCriterion::ByName => "By Name"@,
        SortCriterion::ByEnding => "By Ending"@,
        SortCriterion::ByClass => "By Class"@,
        SortCriterion::ByVersion => "By Version"@,
        SortCriterion::ByDate => "By Date"@,
        SortCriterion::BySize => "By Size"@,
    }
}

/// The label of the radio button of a name sorting style.
pub open spec fn name_sorting_style_caption(s: NameSortingStyle) -> Seq<char> {
    match s {
        NameSortingStyle::PerLocale => "Per Locale"@,
        NameSortingStyle::CaseSensitive => "Case Sensitive"@,
        NameSortingStyle::CaseInsensitive => "Case Insensitive"@,
    }
}

/// The label of the radio button of a sort criterion.
pub fn sort_criterion_label(c: SortCriterion) -> (l: &'static str)
    ensures
        l@ == sort_criterion_caption(c),
{
    match c {
        SortCriterion::ByName => "By Name",
        SortCriterion::ByEnding => "By Ending",
        SortCriterion::ByClass => "By Class",
        SortCriterion::ByVersion => "By Version",
        SortCriterion::ByDate => "By Date",
        SortCriterion::BySize => "By Size",
    }
}

/// The label of the radio button of a name sorting style.
pub fn name_sorting_style_label(s: NameSortingStyle) -> (l: &'static str)
    ensures
        l@ == name_sorting_style_caption(s),
{
    match s {
        NameSortingStyle::PerLocale => "Per Locale",
        NameSortingStyle::CaseSensitive => "Case Sensitive",
        NameSortingStyle::CaseInsensitive => "Case Insensitive",
    }
}

/// The settings of the file manager view that the control panel shows.
#[derive(Debug, Clone, Copy, PartialEq, Eq, Structural)]
pub struct ViewSettings {
    pub sort_criterion: SortCriterion,
    pub name_sorting_style: NameSortingStyle,
    pub sort_directories_first: bool,
    pub show_hidden_files: bool,
    pub autosave: bool,
}

/// What the widgets of the control panel show.
#[derive(Debug, Clone, Copy, PartialEq, Eq, Structural)]
pub struct WidgetState {
    pub sort_checked: usize,
    pub nss_checked: usize,
    pub dirs_first_checked: bool,
    pub show_hidden_checked: bool,
    pub autosave_checked: bool,
}

/// The widget that took an input event, with its state after the event.
#[derive(Debug, Clone, Copy, PartialEq, Eq, Structural)]
pub enum ControlInput {
    /// A sort criterion radio button; the group's checked button, if any.
    SortRadio(Option<usize>),
    /// A name sorting style radio button; the group's checked button, if any.
    NameSortingRadio(Option<usize>),
    DirectoriesFirstCheck(bool),
    ShowHiddenCheck(bool),
    AutosaveCheck(bool),
    /// The save button, and whether it is still held down.
    SaveButton(bool),
    SelectAllButton,
    ClearSelectionButton,
    SwapSelectionButton,
    PathsToClipboardButton,
    NamesToClipboardButton,
}

/// What the control panel asks of the view configuration or the file
/// manager in answer to an input.
#[derive(Debug, Clone, Copy, PartialEq, Eq, Structural)]
pub enum ControlAction {
    Nothing,
    SetSortCriterion(SortCriterion),
    SetNameSortingStyle(NameSortingStyle),
    SetSortDirectoriesFirst(bool),
    SetShowHiddenFiles(bool),
    SetAutosave(bool),
    SaveAsDefault,
    ClearTargetSelection,
    SwapSelection,
    /// Copy the selection to the clipboard: names only when `true`, full
    /// paths when `false`.
    SelectionToClipboard(bool),
}

/// A widget of the control panel.
#[derive(Debug, Clone, Copy, PartialEq, Eq, Structural)]
pub enum PanelWidget {
    SortRadio(usize),
    NameSortingRadio(usize),
    DirectoriesFirstCheck,
    ShowHiddenCheck,
    AutosaveCheck,
    SaveButton,
    SelectAllButton,
    ClearSelectionButton,
    SwapSelectionButton,
    PathsToClipboardButton,
    NamesToClipboardButton,
}

/// The widget that is offered an input event at position `i`: the six sort
/// criterion radio buttons, the three name sorting style radio buttons, the
/// three check boxes (directories first, show hidden, autosave), then the
/// buttons save, select all, clear selection, swap selection, paths to
/// clipboard and names to clipboard.
pub open spec fn dispatch_widget(i: int) -> Option<PanelWidget> {
    if 0 <= i < 6 {
        Some(PanelWidget::SortRadio(i as usize))
    } else if 6 <= i < 9 {
        Some(PanelWidget::NameSortingRadio((i - 6) as usize))
    } else if i == 9 {
        Some(PanelWidget::DirectoriesFirstCheck)
    } else if i == 10 {
        Some(PanelWidget::ShowHiddenCheck)
    } else if i == 11 {
        Some(PanelWidget::AutosaveCheck)
    } else if i == 12 {
        Some(PanelWidget::SaveButton)
    } else if i == 13 {
        Some(PanelWidget::SelectAllButton)
    } else if i == 14 {
        Some(PanelWidget::ClearSelectionButton)
    } else if i == 15 {
        Some(PanelWidget::SwapSelectionButton)
    } else if i == 16 {
        Some(PanelWidget::PathsToClipboardButton)
    } else if i == 17 {
        Some(PanelWidget::NamesToClipboardButton)
    } else {
        None
    }
}

/// The widget that is offered an input event at position `i`, if any.
pub fn widget_in_dispatch_order(i: usize) -> (w: Option<PanelWidget>)
    ensures
        w == dispatch_widget(i as int),
{
    if i < 6 {
        Some(PanelWidget::SortRadio(i))
    } else if i < 9 {
        Some(PanelWidget::NameSortingRadio(i - 6))
    } else if i == 9 {
        Some(PanelWidget::DirectoriesFirstCheck)
    } else if i == 10 {
        Some(PanelWidget::ShowHiddenCheck)
    } else if i == 11 {
        Some(PanelWidget::AutosaveCheck)
    } else if i == 12 {
        Some(PanelWidget::SaveButton)
    } else if i == 13 {
        Some(PanelWidget::SelectAllButton)
    } else if i == 14 {
        Some(PanelWidget::ClearSelectionButton)
    } else if i == 15 {
        Some(PanelWidget::SwapSelectionButton)
    } else if i == 16 {
        Some(PanelWidget::PathsToClipboardButton)
    } else if i == 17 {
        Some(PanelWidget::NamesToClipboardButton)
    } else {
        None
    }
}

/// The caption of a widget: radio buttons carry the label of their sort
/// criterion or name sorting style (none past the last one), check boxes
/// and buttons their own.
pub open spec fn widget_caption(w: PanelWidget) -> Option<Seq<char>> {
    match w {
        PanelWidget::SortRadio(i) => match sort_criterion_at(i as int) {
            Some(c) => Some(sort_criterion_caption(c)),
            None => None,
        },
        PanelWidget::NameSortingRadio(i) => match name_sorting_style_at(i as int) {
            Some(st) => Some(name_sorting_style_caption(st)),
            None => None,
        },
        PanelWidget::DirectoriesFirstCheck => Some("Directories First"@),
        PanelWidget::ShowHiddenCheck => Some("Show Hidden"@),
        PanelWidget::AutosaveCheck => Some("Autosave"@),
        PanelWidget::SaveButton => Some("Save"@),
        PanelWidget::SelectAllButton => Some("Select All"@),
        PanelWidget::ClearSelectionButton => Some("Clear Sel"@),
        PanelWidget::SwapSelectionButton => Some("Swap Sel"@),
        PanelWidget::PathsToClipboardButton => Some("Paths\u{2192}Clip"@),
        PanelWidget::NamesToClipboardButton => Some("Names\u{2192}Clip"@),
    }
}

/// The caption of a widget, if it has one.
pub fn widget_label(w: PanelWidget) -> (l: Option<&'static str>)
    ensures
        match l {
            Some(s) => widget_caption(w) == Some(s@),
            None => widget_caption(w) is None,
        },
{
    match w {
        PanelWidget::SortRadio(i) => match sort_criterion_from_index(i) {
            Some(c) => Some(sort_criterion_label(c)),
            None => None,
        },
        PanelWidget::NameSortingRadio(i) => match name_sorting_style_from_index(i) {
            Some(st) => Some(name_sorting_style_label(st)),
            None => None,
        },
        PanelWidget::DirectoriesFirstCheck => Some("Directories First"),
        PanelWidget::ShowHiddenCheck => Some("Show Hidden"),
        PanelWidget::AutosaveCheck => Some("Autosave"),
        PanelWidget::SaveButton => Some("Save"),
        PanelWidget::SelectAllButton => Some("Select All"),
        PanelWidget::ClearSelectionButton => Some("Clear Sel"),
        PanelWidget::SwapSelectionButton => Some("Swap Sel"),
        PanelWidget::PathsToClipboardButton => Some("Paths\u{2192}Clip"),
        PanelWidget::NamesToClipboardButton => Some("Names\u{2192}Clip"),
    }
}

/// The position of the widget that takes an input event: the first one, in
/// dispatch order, that consumes it (`consumed[i]` tells whether the widget
/// at position `i` would); `None` when no widget does.
pub fn first_consumer(consumed: &Vec<bool>) -> (r: Option<usize>)
    ensures
        match r {
            Some(i) => i < consumed@.len() && consumed@[i as int] && forall|j: int|
                0 <= j < i ==> !consumed@[j],
            None => forall|j: int| 0 <= j < consumed@.len() ==> !consumed@[j],
        },
{
    let mut i: usize = 0;
    while i < consumed.len()
        invariant
            0 <= i <= consumed@.len(),
            forall|j: int| 0 <= j < i ==> !consumed@[j],
        decreases consumed@.len() - i,
    {
        if consumed[i] {
            return Some(i);
        }
        i = i + 1;
    }
    None
}

/// The action that answers an input taken by one of the panel's widgets.
pub open spec fn control_action(input: ControlInput) -> ControlAction {
    match input {
        ControlInput::SortRadio(Some(i)) => match sort_criterion_at(i as int) {
            Some(c) => ControlAction::SetSortCriterion(c),
            None => ControlAction::Nothing,
        },
        ControlInput::NameSortingRadio(Some(i)) => match name_sorting_style_at(i as int) {
            Some(s) => ControlAction::SetNameSortingStyle(s),
            None => ControlAction::Nothing,
        },
        ControlInput::DirectoriesFirstCheck(b) => ControlAction::SetSortDirectoriesFirst(b),
        ControlInput::ShowHiddenCheck(b) => ControlAction::SetShowHiddenFiles(b),
        ControlInput::AutosaveCheck(b) => ControlAction::SetAutosave(b),
        ControlInput::SaveButton(pressed) => if pressed {
            ControlAction::Nothing
        } else {
            ControlAction::SaveAsDefault
        },
        ControlInput::ClearSelectionButton => ControlAction::ClearTargetSelection,
        ControlInput::SwapSelectionButton => ControlAction::SwapSelection,
        ControlInput::PathsToClipboardButton => ControlAction::SelectionToClipboard(false),
        ControlInput::NamesToClipboardButton => ControlAction::SelectionToClipboard(true),
        _ => ControlAction::Nothing,
    }
}

/// The action that answers an input taken by one of the panel's widgets
/// (the input is always consumed).
pub fn input_action(input: ControlInput) -> (a: ControlAction)
    ensures
        a == control_action(input),
{
    match input {
        ControlInput::SortRadio(checked) => match checked {
            Some(i) => match sort_criterion_from_index(i) {
                Some(c) => ControlAction::SetSortCriterion(c),
                None => ControlAction::Nothing,
            },
            None => ControlAction::Nothing,
        },
        ControlInput::NameSortingRadio(checked) => match checked {
            Some(i) => match name_sorting_style_from_index(i) {
                Some(s) => ControlAction::SetNameSortingStyle(s),
                None => ControlAction::Nothing,
            },
            None => ControlAction::Nothing,
        },
        ControlInput::DirectoriesFirstCheck(b) => ControlAction::SetSortDirectoriesFirst(b),
        ControlInput::ShowHiddenCheck(b) => ControlAction::SetShowHiddenFiles(b),
        ControlInput::AutosaveCheck(b) => ControlAction::SetAutosave(b),
        ControlInput::SaveButton(pressed) => if pressed {
            ControlAction::Nothing
        } else {
            ControlAction::SaveAsDefault
        },
        ControlInput::SelectAllButton => ControlAction::Nothing,
        ControlInput::ClearSelectionButton => ControlAction::ClearTargetSelection,
        ControlInput::SwapSelectionButton => ControlAction::SwapSelection,
        ControlInput::PathsToClipboardButton => ControlAction::SelectionToClipboard(false),
        ControlInput::NamesToClipboardButton => ControlAction::SelectionToClipboard(true),
    }
}

/// What the widgets show for the given settings.
pub fn widget_state_from_settings(s: ViewSettings) -> (w: WidgetState)
    ensures
        w.sort_checked == sort_criterion_position(s.sort_criterion),
        w.nss_checked == name_sorting_style_position(s.name_sorting_style),
        w.dirs_first_checked == s.sort_directories_first,
        w.show_hidden_checked == s.show_hidden_files,
        w.autosave_checked == s.autosave,
{
    WidgetState {
        sort_checked: sort_criterion_index(s.sort_criterion),
        nss_checked: name_sorting_style_index(s.name_sorting_style),
        dirs_first_checked: s.sort_directories_first,
        show_hidden_checked: s.show_hidden_files,
        autosave_checked: s.autosave,
    }
}

/// Tracks the configuration generation that the widgets last showed.
pub struct ConfigWatch {
    last_config_gen: u64,
}

impl ConfigWatch {
    /// The generation the widgets last showed.
    pub closed spec fn generation(&self) -> u64 {
        self.last_config_gen
    }

    /// Start watching at generation `gen`.
    pub fn new(gen: u64) -> (w: ConfigWatch)
        ensures
            w.generation() == gen,
    {
        ConfigWatch { last_config_gen: gen }
    }

    /// Note the current generation `gen`; reports whether it differs from
    /// the one last shown (then the widgets must be synchronised again).
    pub fn cycle(&mut self, gen: u64) -> (changed: bool)
        ensures
            changed == (gen != old(self).generation()),
            final(self).generation() == gen,
    {
        if gen != self.last_config_gen {
            self.last_config_gen = gen;
            true
        } else {
            false
        }
    }
}

/// The radio buttons and the sort criteria correspond one to one.
pub proof fn lemma_sort_criterion_positions(c: SortCriterion, i: int)
    ensures
        sort_criterion_at(sort_criterion_position(c)) == Some(c),
        sort_criterion_at(i) matches Some(x) ==> sort_criterion_position(x) == i,
        sort_criterion_at(i) is Some <==> 0 <= i < 6,
{
}

/// The radio buttons and the name sorting styles correspond one to one.
pub proof fn lemma_name_sorting_style_positions(s: NameSortingStyle, i: int)
    ensures
        name_sorting_style_at(name_sorting_style_position(s)) == Some(s),
        name_sorting_style_at(i) matches Some(x) ==> name_sorting_style_position(x) == i,
        name_sorting_style_at(i) is Some <==> 0 <= i < 3,
{
}

/// Clicking name sorting style radio button `i` selects the style shown at
/// position `i`: Per Locale, Case Sensitive, Case Insensitive in that
/// order; a checked index past the last button, or no checked button, asks
/// for nothing.
pub proof fn lemma_name_sorting_radio_action(i: usize)
    ensures
        i < 3 ==> (control_action(ControlInput::NameSortingRadio(Some(i))) matches
            ControlAction::SetNameSortingStyle(st) && name_sorting_style_position(st) == i),
        i == 0 ==> control_action(ControlInput::NameSortingRadio(Some(i)))
            == ControlAction::SetNameSortingStyle(NameSortingStyle::PerLocale),
        i == 1 ==> control_action(ControlInput::NameSortingRadio(Some(i)))
            == ControlAction::SetNameSortingStyle(NameSortingStyle::CaseSensitive),
        i == 2 ==> control_action(ControlInput::NameSortingRadio(Some(i)))
            == ControlAction::SetNameSortingStyle(NameSortingStyle::CaseInsensitive),
        i >= 3 ==> control_action(ControlInput::NameSortingRadio(Some(i)))
            == ControlAction::Nothing,
        control_action(ControlInput::NameSortingRadio(None)) == ControlAction::Nothing,
{
}

/// Clicking sort criterion radio button `i` selects the criterion shown at
/// position `i`: By Name, By Ending, By Class, By Version, By Date, By Size
/// in that order; a checked index past the last button, or no checked
/// button, asks for nothing.
pub proof fn lemma_sort_radio_action(i: usize)
    ensures
        i < 6 ==> (control_action(ControlInput::SortRadio(Some(i))) matches
            ControlAction::SetSortCriterion(c) && sort_criterion_position(c) == i),
        i == 0 ==> control_action(ControlInput::SortRadio(Some(i)))
            == ControlAction::SetSortCriterion(SortCriterion::ByName),
        i == 1 ==> control_action(ControlInput::SortRadio(Some(i)))
            == ControlAction::SetSortCriterion(SortCriterion::ByEnding),
        i == 2 ==> control_action(ControlInput::SortRadio(Some(i)))
            == ControlAction::SetSortCriterion(SortCriterion::ByClass),
        i == 3 ==> control_action(ControlInput::SortRadio(Some(i)))
            == ControlAction::SetSortCriterion(SortCriterion::ByVersion),
        i == 4 ==> control_action(ControlInput::SortRadio(Some(i)))
            == ControlAction::SetSortCriterion(SortCriterion::ByDate),
        i == 5 ==> control_action(ControlInput::SortRadio(Some(i)))
            == ControlAction::SetSortCriterion(SortCriterion::BySize),
        i >= 6 ==> control_action(ControlInput::SortRadio(Some(i))) == ControlAction::Nothing,
        control_action(ControlInput::SortRadio(None)) == ControlAction::Nothing,
{
}

/// Each check box passes its new state on to the setting it is named
/// after; releasing the save button saves the settings as default (holding
/// it down does nothing); select all asks nothing of the view; clear and
/// swap act on the selection; "Paths\u{2192}Clip" copies full paths and
/// "Names\u{2192}Clip" copies names only.
pub proof fn lemma_check_and_button_actions(b: bool)
    ensures
        control_action(ControlInput::DirectoriesFirstCheck(b))
            == ControlAction::SetSortDirectoriesFirst(b),
        control_action(ControlInput::ShowHiddenCheck(b)) == ControlAction::SetShowHiddenFiles(b),
        control_action(ControlInput::AutosaveCheck(b)) == ControlAction::SetAutosave(b),
        control_action(ControlInput::SaveButton(true)) == ControlAction::Nothing,
        control_action(ControlInput::SaveButton(false)) == ControlAction::SaveAsDefault,
        control_action(ControlInput::SelectAllButton) == ControlAction::Nothing,
        control_action(ControlInput::ClearSelectionButton) == ControlAction::ClearTargetSelection,
        control_action(ControlInput::SwapSelectionButton) == ControlAction::SwapSelection,
        control_action(ControlInput::PathsToClipboardButton)
            == ControlAction::SelectionToClipboard(false),
        control_action(ControlInput::NamesToClipboardButton)
            == ControlAction::SelectionToClipboard(true),
{
}

/// Input is offered to the widgets in the order in which the panel shows
/// them: the radio buttons By Name, By Ending, By Class, By Version, By
/// Date, By Size, Per Locale, Case Sensitive, Case Insensitive, the check
/// boxes Directories First, Show Hidden, Autosave, then the buttons Save,
/// Select All, Clear Sel, Swap Sel, Paths\u{2192}Clip and
/// Names\u{2192}Clip; there is no widget past them.
pub proof fn lemma_dispatch_order_captions(i: int)
    ensures
        dispatch_widget(0) matches Some(w) && widget_caption(w) == Some("By Name"@),
        dispatch_widget(1) matches Some(w) && widget_caption(w) == Some("By Ending"@),
        dispatch_widget(2) matches Some(w) && widget_caption(w) == Some("By Class"@),
        dispatch_widget(3) matches Some(w) && widget_caption(w) == Some("By Version"@),
        dispatch_widget(4) matches Some(w) && widget_caption(w) == Some("By Date"@),
        dispatch_widget(5) matches Some(w) && widget_caption(w) == Some("By Size"@),
        dispatch_widget(6) matches Some(w) && widget_caption(w) == Some("Per Locale"@),
        dispatch_widget(7) matches Some(w) && widget_caption(w) == Some("Case Sensitive"@),
        dispatch_widget(8) matches Some(w) && widget_caption(w) == Some("Case Insensitive"@),
        dispatch_widget(9) matches Some(w) && widget_caption(w) == Some("Directories First"@),
        dispatch_widget(10) matches Some(w) && widget_caption(w) == Some("Show Hidden"@),
        dispatch_widget(11) matches Some(w) && widget_caption(w) == Some("Autosave"@),
        dispatch_widget(12) matches Some(w) && widget_caption(w) == Some("Save"@),
        dispatch_widget(13) matches Some(w) && widget_caption(w) == Some("Select All"@),
        dispatch_widget(14) matches Some(w) && widget_caption(w) == Some("Clear Sel"@),
        dispatch_widget(15) matches Some(w) && widget_caption(w) == Some("Swap Sel"@),
        dispatch_widget(16) matches Some(w) && widget_caption(w) == Some("Paths\u{2192}Clip"@),
        dispatch_widget(17) matches Some(w) && widget_caption(w) == Some("Names\u{2192}Clip"@),
        i >= 18 ==> dispatch_widget(i) is None,
{
}

/// Each radio button selects the value whose caption it shows: the action
/// of a checked radio button sets a value labelled with the button's own
/// caption.
pub proof fn lemma_radio_action_matches_caption(i: usize)
    ensures
        control_action(ControlInput::SortRadio(Some(i))) matches ControlAction::SetSortCriterion(c)
            ==> widget_caption(PanelWidget::SortRadio(i)) == Some(sort_criterion_caption(c)),
        control_action(ControlInput::NameSortingRadio(Some(i))) matches
            ControlAction::SetNameSortingStyle(st) ==> widget_caption(
            PanelWidget::NameSortingRadio(i),
        ) == Some(name_sorting_style_caption(st)),
{
}

} // verus!
