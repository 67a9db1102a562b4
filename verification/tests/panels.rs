use eaglemode::autoplay::{emAutoplayControlPanel, PanelId};
use eaglemode::fileman_panel::{
    first_consumer, input_action, widget_in_dispatch_order, widget_label, PanelWidget, name_sorting_style_from_index, name_sorting_style_label, sort_criterion_label, name_sorting_style_index,
    sort_criterion_from_index, sort_criterion_index, widget_state_from_settings, ConfigWatch,
    ControlAction, ControlInput, NameSortingStyle, SortCriterion, ViewSettings,
};
use eaglemode::widget::{InnerBorderType, OuterBorderType};

#[test]
fn test_control_panel_new() {
    let panel = emAutoplayControlPanel::new();
    assert_eq!(panel.get_title(), Some("Autoplay".to_string()));
}

#[test]
fn autoplay_panel_children() {
    let mut panel = emAutoplayControlPanel::new();
    assert!(panel.IsOpaque());
    assert!(!panel.are_children_created());
    assert!(panel.layout_order().is_empty());
    let names: Vec<String> = (0..4).map(emAutoplayControlPanel::button_name).collect();
    assert_eq!(names, vec!["btn_0", "btn_1", "btn_2", "btn_3"]);
    let labels: Vec<&str> = (0..4).map(emAutoplayControlPanel::button_label).collect();
    assert_eq!(labels, vec!["Autoplay", "Previous", "Next", "Continue Last"]);
    let ids = [PanelId { id: 7 }, PanelId { id: 8 }, PanelId { id: 9 }, PanelId { id: 10 }];
    panel.set_children(ids);
    assert!(panel.are_children_created());
    assert_eq!(panel.layout_order(), ids.to_vec());
}

#[test]
fn fileman_radio_indices() {
    assert_eq!(sort_criterion_from_index(0), Some(SortCriterion::ByName));
    assert_eq!(sort_criterion_from_index(5), Some(SortCriterion::BySize));
    assert_eq!(sort_criterion_from_index(6), None);
    assert_eq!(sort_criterion_index(SortCriterion::ByDate), 4);
    assert_eq!(name_sorting_style_from_index(2), Some(NameSortingStyle::CaseInsensitive));
    assert_eq!(name_sorting_style_from_index(3), None);
    assert_eq!(name_sorting_style_index(NameSortingStyle::CaseSensitive), 1);
}

#[test]
fn fileman_input_actions() {
    assert_eq!(
        input_action(ControlInput::SortRadio(Some(5))),
        ControlAction::SetSortCriterion(SortCriterion::BySize)
    );
    assert_eq!(input_action(ControlInput::SortRadio(Some(9))), ControlAction::Nothing);
    assert_eq!(input_action(ControlInput::SortRadio(None)), ControlAction::Nothing);
    assert_eq!(
        input_action(ControlInput::NameSortingRadio(Some(0))),
        ControlAction::SetNameSortingStyle(NameSortingStyle::PerLocale)
    );
    assert_eq!(
        input_action(ControlInput::DirectoriesFirstCheck(true)),
        ControlAction::SetSortDirectoriesFirst(true)
    );
    assert_eq!(
        input_action(ControlInput::ShowHiddenCheck(false)),
        ControlAction::SetShowHiddenFiles(false)
    );
    assert_eq!(input_action(ControlInput::AutosaveCheck(true)), ControlAction::SetAutosave(true));
    assert_eq!(input_action(ControlInput::SaveButton(true)), ControlAction::Nothing);
    assert_eq!(input_action(ControlInput::SaveButton(false)), ControlAction::SaveAsDefault);
    assert_eq!(input_action(ControlInput::SelectAllButton), ControlAction::Nothing);
    assert_eq!(
        input_action(ControlInput::ClearSelectionButton),
        ControlAction::ClearTargetSelection
    );
    assert_eq!(input_action(ControlInput::SwapSelectionButton), ControlAction::SwapSelection);
    assert_eq!(
        input_action(ControlInput::PathsToClipboardButton),
        ControlAction::SelectionToClipboard(false)
    );
    assert_eq!(
        input_action(ControlInput::NamesToClipboardButton),
        ControlAction::SelectionToClipboard(true)
    );
}

#[test]
fn fileman_sync_and_cycle() {
    let s = ViewSettings {
        sort_criterion: SortCriterion::BySize,
        name_sorting_style: NameSortingStyle::PerLocale,
        sort_directories_first: false,
        show_hidden_files: true,
        autosave: false,
    };
    let w = widget_state_from_settings(s);
    assert_eq!(w.sort_checked, 5);
    assert_eq!(w.nss_checked, 0);
    assert!(!w.dirs_first_checked);
    assert!(w.show_hidden_checked);
    assert!(!w.autosave_checked);
    let mut watch = ConfigWatch::new(3);
    assert!(!watch.cycle(3));
    assert!(watch.cycle(4));
    assert!(!watch.cycle(4));
}

#[test]
fn border_types_compare() {
    assert!(OuterBorderType::Rect != OuterBorderType::RoundRect);
    assert_eq!(InnerBorderType::InputField, InnerBorderType::InputField);
    assert!(OuterBorderType::NoBorder != OuterBorderType::Filled);
}

#[test]
fn fileman_radio_labels() {
    let labels: Vec<&str> = (0..6)
        .map(|i| sort_criterion_label(sort_criterion_from_index(i).unwrap()))
        .collect();
    assert_eq!(
        labels,
        vec!["By Name", "By Ending", "By Class", "By Version", "By Date", "By Size"]
    );
    let nss: Vec<&str> = (0..3)
        .map(|i| name_sorting_style_label(name_sorting_style_from_index(i).unwrap()))
        .collect();
    assert_eq!(nss, vec!["Per Locale", "Case Sensitive", "Case Insensitive"]);
}

#[test]
fn fileman_input_dispatch_order() {
    assert_eq!(widget_in_dispatch_order(0), Some(PanelWidget::SortRadio(0)));
    assert_eq!(widget_in_dispatch_order(5), Some(PanelWidget::SortRadio(5)));
    assert_eq!(widget_in_dispatch_order(6), Some(PanelWidget::NameSortingRadio(0)));
    assert_eq!(widget_in_dispatch_order(9), Some(PanelWidget::DirectoriesFirstCheck));
    assert_eq!(widget_in_dispatch_order(12), Some(PanelWidget::SaveButton));
    assert_eq!(widget_in_dispatch_order(17), Some(PanelWidget::NamesToClipboardButton));
    assert_eq!(widget_in_dispatch_order(18), None);
    assert_eq!(first_consumer(&vec![false, true, true]), Some(1));
    assert_eq!(first_consumer(&vec![false, false]), None);
    assert_eq!(first_consumer(&vec![]), None);
}

#[test]
fn sync_from_config_initializes_widgets() {
    let s = ViewSettings {
        sort_criterion: SortCriterion::ByName,
        name_sorting_style: NameSortingStyle::PerLocale,
        sort_directories_first: false,
        show_hidden_files: false,
        autosave: false,
    };
    let w = widget_state_from_settings(s);
    assert_eq!(w.sort_checked, 0);
    assert_eq!(w.nss_checked, 0);
    assert!(!w.dirs_first_checked);
    assert!(!w.show_hidden_checked);
}

#[test]
fn cycle_detects_config_change() {
    let mut s = ViewSettings {
        sort_criterion: SortCriterion::ByName,
        name_sorting_style: NameSortingStyle::PerLocale,
        sort_directories_first: false,
        show_hidden_files: false,
        autosave: false,
    };
    let mut watch = ConfigWatch::new(0);
    s.sort_criterion = SortCriterion::BySize;
    let changed = watch.cycle(1);
    assert!(changed);
    assert_eq!(widget_state_from_settings(s).sort_checked, 5);
}

#[test]
fn widget_counts() {
    let sort_radios = (0..18)
        .filter(|i| matches!(widget_in_dispatch_order(*i), Some(PanelWidget::SortRadio(_))))
        .count();
    let nss_radios = (0..18)
        .filter(|i| matches!(widget_in_dispatch_order(*i), Some(PanelWidget::NameSortingRadio(_))))
        .count();
    assert_eq!(sort_radios, 6);
    assert_eq!(nss_radios, 3);
}

#[test]
fn fileman_widget_captions() {
    assert_eq!(widget_label(PanelWidget::DirectoriesFirstCheck), Some("Directories First"));
    assert_eq!(widget_label(PanelWidget::ShowHiddenCheck), Some("Show Hidden"));
    assert_eq!(widget_label(PanelWidget::AutosaveCheck), Some("Autosave"));
    assert_eq!(widget_label(PanelWidget::SaveButton), Some("Save"));
    assert_eq!(widget_label(PanelWidget::SelectAllButton), Some("Select All"));
    assert_eq!(widget_label(PanelWidget::ClearSelectionButton), Some("Clear Sel"));
    assert_eq!(widget_label(PanelWidget::SwapSelectionButton), Some("Swap Sel"));
    assert_eq!(widget_label(PanelWidget::PathsToClipboardButton), Some("Paths\u{2192}Clip"));
    assert_eq!(widget_label(PanelWidget::NamesToClipboardButton), Some("Names\u{2192}Clip"));
    assert_eq!(widget_label(PanelWidget::SortRadio(3)), Some("By Version"));
    assert_eq!(widget_label(PanelWidget::SortRadio(6)), None);
    assert_eq!(widget_label(PanelWidget::NameSortingRadio(2)), Some("Case Insensitive"));
    assert_eq!(widget_label(PanelWidget::NameSortingRadio(3)), None);
}
