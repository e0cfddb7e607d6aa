use termsh::gmsh_ctl::GmshPara;
use termsh::gmsh_ctl::MeshPara;
use termsh::gmsh_ctl::PhysPair;
use termsh::gmsh_ctl::PhysPairList;
use termsh::gmsh_ctl::SurfPhys;
use termsh::gmsh_ctl::VolPhys;
use termsh::session::Action;
use termsh::session::KeyCode;
use termsh::session::KeyEvent;
use termsh::session::KeyEventKind;
use termsh::session::ModifyType;
use termsh::session::OperaMode;
use termsh::session::TypeMode;
use termsh::tui::accepts;
use termsh::tui::is_ascii_digit;
use termsh::tui::tui_start;
use termsh::tui::TUI;

fn press(code: KeyCode) -> KeyEvent {
    KeyEvent { code, kind: KeyEventKind::Press }
}

fn vol(name: &str, phys_id: &str, vol_ids: &str) -> VolPhys {
    VolPhys { name: name.to_string(), phys_id: phys_id.to_string(), vol_ids: vol_ids.to_string() }
}

fn surf(name: &str, phys_id: &str, surf_ids: &str) -> SurfPhys {
    SurfPhys {
        name: name.to_string(),
        phys_id: phys_id.to_string(),
        surf_ids: surf_ids.to_string(),
    }
}

fn session(vols: usize, surfs: usize) -> TUI {
    let mut store = GmshPara {
        geometry_file: "part.step".to_string(),
        vol_phy_list: Vec::new(),
        surf_phy_list: Vec::new(),
        mesh_paras: MeshPara { max_size: String::new() },
    };
    for i in 0..vols {
        store.vol_phy_list.push(vol(&format!("v{}", i), &format!("{}", i + 1), "1"));
    }
    for i in 0..surfs {
        store.surf_phy_list.push(surf(&format!("s{}", i), &format!("{}", i + 11), "2"));
    }
    TUI::new(store)
}

fn type_text(tui: &mut TUI, text: &str) {
    for ch in text.chars() {
        tui.handle_key_event(press(KeyCode::Char(ch)));
    }
}

fn fields(tui: &TUI) -> Vec<String> {
    tui.input_buf().clone()
}

#[test]
fn a_new_session_has_no_focus() {
    let tui = session(2, 1);
    assert!(!tui.should_exit());
    assert_eq!(tui.cur_type(), TypeMode::NoneSelected);
    assert_eq!(tui.selected(), None);
    assert_eq!(tui.operation_mode(), OperaMode::Select);
    assert!(tui.input_buf().is_empty());
    assert_eq!(tui.cursor().modify_type, ModifyType::NoField);
    assert_eq!(tui.cursor().char_idx, 0);
}

#[test]
fn start_takes_the_geometry_and_the_kept_pairs() {
    let cache = PhysPairList {
        vol_pairs: vec![PhysPair { name: "Body".to_string(), phys_id: "1".to_string() }],
        sur_pairs: vec![],
    };
    let tui = tui_start("part.step".to_string(), &cache);
    assert_eq!(tui.gmesh_para().geometry_file, "part.step");
    assert_eq!(tui.gmesh_para().vol_phy_list.len(), 1);
    assert_eq!(tui.gmesh_para().vol_phy_list[0].name, "Body");
    assert_eq!(tui.gmesh_para().vol_phy_list[0].vol_ids, "");
    assert_eq!(tui.cur_type(), TypeMode::NoneSelected);
    assert_eq!(tui.selected(), None);
}

#[test]
fn down_from_nowhere_goes_to_the_first_volume() {
    let mut tui = session(2, 1);
    tui.table_state_down();
    assert_eq!(tui.cur_type(), TypeMode::Volume);
    assert_eq!(tui.selected(), Some(0));
}

#[test]
fn down_walks_to_the_row_after_the_last_and_then_lets_go() {
    let mut tui = session(2, 1);
    tui.table_state_down();
    tui.table_state_down();
    assert_eq!(tui.selected(), Some(1));
    tui.table_state_down();
    assert_eq!(tui.selected(), Some(2));
    tui.table_state_down();
    assert_eq!(tui.selected(), None);
    assert_eq!(tui.cur_type(), TypeMode::Volume);
    tui.table_state_down();
    assert_eq!(tui.selected(), Some(0));
}

#[test]
fn up_from_nowhere_goes_to_the_row_after_the_last_volume() {
    let mut tui = session(2, 1);
    tui.table_state_up();
    assert_eq!(tui.cur_type(), TypeMode::Volume);
    assert_eq!(tui.selected(), Some(2));
}

#[test]
fn up_walks_to_the_first_row_and_then_lets_go() {
    let mut tui = session(2, 1);
    tui.table_state_up();
    tui.table_state_up();
    assert_eq!(tui.selected(), Some(1));
    tui.table_state_up();
    assert_eq!(tui.selected(), Some(0));
    tui.table_state_up();
    assert_eq!(tui.selected(), None);
    tui.table_state_up();
    assert_eq!(tui.selected(), Some(2));
}

#[test]
fn up_and_down_stay_among_the_rows() {
    let mut tui = session(3, 0);
    tui.table_state_down();
    let moves = [true, true, false, true, true, true, true, false, false, false, false, false, true];
    for down in moves.iter().cycle().take(200) {
        if *down {
            tui.table_state_down();
        } else {
            tui.table_state_up();
        }
        assert_eq!(tui.cur_type(), TypeMode::Volume);
        if let Some(row) = tui.selected() {
            assert!(row <= 3);
        }
    }
}

#[test]
fn the_mesh_list_has_one_row() {
    let mut tui = session(2, 1);
    tui.type_mode_left();
    assert_eq!(tui.cur_type(), TypeMode::Mesh);
    assert_eq!(tui.selected(), Some(0));
    tui.table_state_down();
    assert_eq!(tui.selected(), None);
    tui.table_state_down();
    assert_eq!(tui.selected(), Some(0));
    tui.table_state_up();
    assert_eq!(tui.selected(), None);
    tui.table_state_up();
    assert_eq!(tui.selected(), Some(0));
    assert_eq!(tui.cur_type(), TypeMode::Mesh);
}

#[test]
fn four_rights_come_back() {
    for start in 0..4 {
        let mut tui = session(2, 1);
        for _ in 0..start {
            tui.type_mode_right();
        }
        let group = tui.cur_type();
        for _ in 0..4 {
            tui.type_mode_right();
        }
        assert_eq!(tui.cur_type(), group);
    }
}

#[test]
fn four_lefts_come_back() {
    for start in 0..4 {
        let mut tui = session(2, 1);
        for _ in 0..start {
            tui.type_mode_left();
        }
        let group = tui.cur_type();
        for _ in 0..4 {
            tui.type_mode_left();
        }
        assert_eq!(tui.cur_type(), group);
    }
}

#[test]
fn right_goes_through_the_lists_in_order() {
    let mut tui = session(2, 1);
    tui.type_mode_right();
    assert_eq!((tui.cur_type(), tui.selected()), (TypeMode::Volume, Some(0)));
    tui.type_mode_right();
    assert_eq!((tui.cur_type(), tui.selected()), (TypeMode::Surface, Some(0)));
    tui.type_mode_right();
    assert_eq!((tui.cur_type(), tui.selected()), (TypeMode::Mesh, Some(0)));
    tui.type_mode_right();
    assert_eq!((tui.cur_type(), tui.selected()), (TypeMode::NoneSelected, None));
}

#[test]
fn left_goes_through_the_lists_in_reverse() {
    let mut tui = session(2, 1);
    tui.type_mode_left();
    assert_eq!((tui.cur_type(), tui.selected()), (TypeMode::Mesh, Some(0)));
    tui.type_mode_left();
    assert_eq!((tui.cur_type(), tui.selected()), (TypeMode::Surface, Some(0)));
    tui.type_mode_left();
    assert_eq!((tui.cur_type(), tui.selected()), (TypeMode::Volume, Some(0)));
    tui.type_mode_left();
    assert_eq!((tui.cur_type(), tui.selected()), (TypeMode::NoneSelected, None));
}

#[test]
fn entering_a_shorter_list_clamps_the_selection() {
    let mut tui = session(5, 1);
    tui.table_state_up();
    assert_eq!(tui.selected(), Some(5));
    tui.type_mode_right();
    assert_eq!((tui.cur_type(), tui.selected()), (TypeMode::Surface, Some(1)));
    tui.type_mode_left();
    assert_eq!((tui.cur_type(), tui.selected()), (TypeMode::Volume, Some(1)));
}

#[test]
fn entering_a_longer_list_keeps_the_selection() {
    let mut tui = session(1, 4);
    tui.table_state_down();
    tui.table_state_down();
    assert_eq!(tui.selected(), Some(1));
    tui.type_mode_right();
    assert_eq!((tui.cur_type(), tui.selected()), (TypeMode::Surface, Some(1)));
}

#[test]
fn entering_with_no_selection_selects_the_first_row() {
    let mut tui = session(2, 2);
    tui.table_state_down();
    tui.table_state_up();
    assert_eq!((tui.cur_type(), tui.selected()), (TypeMode::Volume, None));
    tui.type_mode_right();
    assert_eq!((tui.cur_type(), tui.selected()), (TypeMode::Surface, Some(0)));
}

#[test]
fn enter_opens_the_selected_group() {
    let mut tui = TUI::new(GmshPara {
        geometry_file: "part.step".to_string(),
        vol_phy_list: vec![vol("Body", "1", "1,2,3")],
        surf_phy_list: vec![],
        mesh_paras: MeshPara { max_size: String::new() },
    });
    tui.table_state_down();
    tui.select_to_modify();
    assert_eq!(tui.operation_mode(), OperaMode::Modify);
    assert_eq!(fields(&tui), vec!["Body", "1", "1,2,3"]);
    assert_eq!(tui.cursor().modify_type, ModifyType::VolName);
    assert_eq!(tui.cursor().char_idx, 4);
}

#[test]
fn enter_on_the_row_after_the_last_opens_empty_fields() {
    let mut tui = session(1, 1);
    tui.type_mode_right();
    tui.type_mode_right();
    tui.table_state_down();
    assert_eq!((tui.cur_type(), tui.selected()), (TypeMode::Surface, Some(1)));
    tui.select_to_modify();
    assert_eq!(tui.operation_mode(), OperaMode::Modify);
    assert_eq!(fields(&tui), vec!["", "", ""]);
    assert_eq!(tui.cursor().modify_type, ModifyType::SurName);
    assert_eq!(tui.cursor().char_idx, 0);
}

#[test]
fn enter_on_the_mesh_row_opens_the_size() {
    let mut tui = TUI::new(GmshPara {
        geometry_file: "part.step".to_string(),
        vol_phy_list: vec![],
        surf_phy_list: vec![],
        mesh_paras: MeshPara { max_size: "0.25".to_string() },
    });
    tui.type_mode_left();
    tui.select_to_modify();
    assert_eq!(fields(&tui), vec!["MaxSize", "0.25"]);
    assert_eq!(tui.cursor().modify_type, ModifyType::MeshVal);
    assert_eq!(tui.cursor().char_idx, 4);
}

#[test]
fn enter_without_a_selection_changes_nothing() {
    let mut tui = session(1, 1);
    tui.select_to_modify();
    assert_eq!(tui.operation_mode(), OperaMode::Select);
    assert!(tui.input_buf().is_empty());
}

#[test]
fn validators_by_field() {
    assert!(is_ascii_digit('0') && is_ascii_digit('9') && is_ascii_digit('5'));
    assert!(!is_ascii_digit('/') && !is_ascii_digit(':') && !is_ascii_digit('a'));
    assert!(!is_ascii_digit('\u{0663}'));
    for ch in ['a', ' ', ',', '.', '7', '\u{00e9}', '"'] {
        assert!(accepts(ModifyType::VolName, ch));
        assert!(accepts(ModifyType::SurName, ch));
        assert!(!accepts(ModifyType::NoField, ch));
    }
    for field in [ModifyType::VolPID, ModifyType::SurPID] {
        assert!(accepts(field, '3'));
        assert!(!accepts(field, ','));
        assert!(!accepts(field, '.'));
        assert!(!accepts(field, 'x'));
    }
    for field in [ModifyType::VolVID, ModifyType::SurSID] {
        assert!(accepts(field, '3'));
        assert!(accepts(field, ','));
        assert!(!accepts(field, '.'));
        assert!(!accepts(field, ' '));
    }
    assert!(accepts(ModifyType::MeshVal, '3'));
    assert!(accepts(ModifyType::MeshVal, '.'));
    assert!(!accepts(ModifyType::MeshVal, ','));
    assert!(!accepts(ModifyType::MeshVal, '-'));
}

#[test]
fn typing_keeps_accepted_characters_in_order() {
    let mut tui = session(0, 0);
    tui.table_state_down();
    tui.select_to_modify();
    type_text(&mut tui, "Ab c");
    tui.modify_tab();
    type_text(&mut tui, "1x2,3.");
    tui.modify_tab();
    type_text(&mut tui, "4,a5 .6");
    assert_eq!(fields(&tui), vec!["Ab c", "123", "4,56"]);
    assert_eq!(tui.cursor().modify_type, ModifyType::VolVID);
    assert_eq!(tui.cursor().char_idx, 4);
}

#[test]
fn typing_the_mesh_size() {
    let mut tui = session(0, 0);
    tui.type_mode_left();
    tui.select_to_modify();
    type_text(&mut tui, "0,.x5-");
    assert_eq!(fields(&tui), vec!["MaxSize", "0.5"]);
    assert_eq!(tui.cursor().char_idx, 3);
}

#[test]
fn typing_goes_in_at_the_caret() {
    let mut tui = session(0, 0);
    tui.table_state_down();
    tui.select_to_modify();
    type_text(&mut tui, "ad");
    tui.cursor_left();
    type_text(&mut tui, "bc");
    assert_eq!(fields(&tui)[0], "abcd");
    assert_eq!(tui.cursor().char_idx, 3);
}

#[test]
fn the_caret_counts_characters_not_bytes() {
    let mut tui = session(0, 0);
    tui.table_state_down();
    tui.select_to_modify();
    type_text(&mut tui, "\u{00e9}\u{4e2d}z");
    assert_eq!(tui.cursor().char_idx, 3);
    tui.cursor_left();
    tui.cursor_left();
    tui.char_insert('x');
    assert_eq!(fields(&tui)[0], "\u{00e9}x\u{4e2d}z");
    tui.char_delete();
    assert_eq!(fields(&tui)[0], "\u{00e9}xz");
    tui.char_backspace();
    tui.char_backspace();
    assert_eq!(fields(&tui)[0], "z");
    assert_eq!(tui.cursor().char_idx, 0);
}

#[test]
fn backspace_removes_before_the_caret() {
    let mut tui = session(0, 0);
    tui.table_state_down();
    tui.select_to_modify();
    type_text(&mut tui, "abc");
    tui.cursor_left();
    tui.char_backspace();
    assert_eq!(fields(&tui)[0], "ac");
    assert_eq!(tui.cursor().char_idx, 1);
    tui.char_backspace();
    assert_eq!(fields(&tui)[0], "c");
    assert_eq!(tui.cursor().char_idx, 0);
    tui.char_backspace();
    assert_eq!(fields(&tui)[0], "c");
    assert_eq!(tui.cursor().char_idx, 0);
    assert_eq!(tui.cursor().modify_type, ModifyType::VolName);
}

#[test]
fn delete_removes_at_the_caret() {
    let mut tui = session(0, 0);
    tui.table_state_down();
    tui.select_to_modify();
    type_text(&mut tui, "abc");
    tui.char_delete();
    assert_eq!(fields(&tui)[0], "abc");
    tui.cursor_left();
    tui.cursor_left();
    tui.char_delete();
    assert_eq!(fields(&tui)[0], "ac");
    assert_eq!(tui.cursor().char_idx, 1);
    tui.char_delete();
    assert_eq!(fields(&tui)[0], "a");
    tui.char_delete();
    assert_eq!(fields(&tui)[0], "a");
    assert_eq!(tui.cursor().char_idx, 1);
}

#[test]
fn three_tabs_come_back() {
    let mut tui = TUI::new(GmshPara {
        geometry_file: "part.step".to_string(),
        vol_phy_list: vec![vol("Body", "12", "1,2,3")],
        surf_phy_list: vec![],
        mesh_paras: MeshPara { max_size: String::new() },
    });
    tui.table_state_down();
    tui.select_to_modify();
    tui.modify_tab();
    assert_eq!(tui.cursor().modify_type, ModifyType::VolPID);
    assert_eq!(tui.cursor().char_idx, 2);
    tui.modify_tab();
    assert_eq!(tui.cursor().modify_type, ModifyType::VolVID);
    assert_eq!(tui.cursor().char_idx, 5);
    tui.modify_tab();
    assert_eq!(tui.cursor().modify_type, ModifyType::VolName);
    assert_eq!(tui.cursor().char_idx, 4);
    assert_eq!(fields(&tui), vec!["Body", "12", "1,2,3"]);
}

#[test]
fn tab_does_not_move_in_the_mesh_size() {
    let mut tui = session(0, 0);
    tui.type_mode_left();
    tui.select_to_modify();
    type_text(&mut tui, "12");
    tui.cursor_left();
    tui.modify_tab();
    assert_eq!(tui.cursor().modify_type, ModifyType::MeshVal);
    assert_eq!(tui.cursor().char_idx, 1);
}

#[test]
fn left_at_the_start_wraps_to_the_end_of_the_field_before() {
    let mut tui = TUI::new(GmshPara {
        geometry_file: "part.step".to_string(),
        vol_phy_list: vec![],
        surf_phy_list: vec![surf("", "12", "1,2,3")],
        mesh_paras: MeshPara { max_size: String::new() },
    });
    tui.type_mode_right();
    tui.type_mode_right();
    tui.select_to_modify();
    assert_eq!(tui.cursor().modify_type, ModifyType::SurName);
    assert_eq!(tui.cursor().char_idx, 0);
    tui.cursor_left();
    assert_eq!(tui.cursor().modify_type, ModifyType::SurSID);
    assert_eq!(tui.cursor().char_idx, 5);
    for _ in 0..5 {
        tui.cursor_left();
    }
    assert_eq!(tui.cursor().char_idx, 0);
    tui.cursor_left();
    assert_eq!(tui.cursor().modify_type, ModifyType::SurPID);
    assert_eq!(tui.cursor().char_idx, 2);
}

#[test]
fn right_at_the_end_wraps_to_the_start_of_the_field_after() {
    let mut tui = TUI::new(GmshPara {
        geometry_file: "part.step".to_string(),
        vol_phy_list: vec![vol("Body", "12", "1,2,3")],
        surf_phy_list: vec![],
        mesh_paras: MeshPara { max_size: String::new() },
    });
    tui.table_state_down();
    tui.select_to_modify();
    tui.cursor_right();
    assert_eq!(tui.cursor().modify_type, ModifyType::VolPID);
    assert_eq!(tui.cursor().char_idx, 0);
    tui.cursor_right();
    tui.cursor_right();
    assert_eq!(tui.cursor().char_idx, 2);
    tui.cursor_right();
    assert_eq!(tui.cursor().modify_type, ModifyType::VolVID);
    assert_eq!(tui.cursor().char_idx, 0);
    tui.modify_tab();
    tui.modify_tab();
    tui.modify_tab();
    assert_eq!(tui.cursor().modify_type, ModifyType::VolVID);
    assert_eq!(tui.cursor().char_idx, 5);
    tui.cursor_right();
    assert_eq!(tui.cursor().modify_type, ModifyType::VolName);
    assert_eq!(tui.cursor().char_idx, 0);
}

#[test]
fn left_then_right_comes_back() {
    let mut tui = TUI::new(GmshPara {
        geometry_file: "part.step".to_string(),
        vol_phy_list: vec![vol("Body", "12", "1,2,3")],
        surf_phy_list: vec![],
        mesh_paras: MeshPara { max_size: String::new() },
    });
    tui.table_state_down();
    tui.select_to_modify();
    for _ in 0..14 {
        let before = (tui.cursor().modify_type, tui.cursor().char_idx);
        tui.cursor_left();
        tui.cursor_right();
        assert_eq!((tui.cursor().modify_type, tui.cursor().char_idx), before);
        tui.cursor_right();
        tui.cursor_left();
        assert_eq!((tui.cursor().modify_type, tui.cursor().char_idx), before);
        tui.cursor_right();
    }
}

#[test]
fn the_caret_does_not_leave_the_mesh_size() {
    let mut tui = session(0, 0);
    tui.type_mode_left();
    tui.select_to_modify();
    type_text(&mut tui, "12");
    tui.cursor_right();
    assert_eq!(tui.cursor().char_idx, 2);
    tui.cursor_left();
    tui.cursor_left();
    tui.cursor_left();
    assert_eq!(tui.cursor().modify_type, ModifyType::MeshVal);
    assert_eq!(tui.cursor().char_idx, 0);
}

#[test]
fn committing_the_row_after_the_last_appends() {
    let mut tui = session(0, 0);
    tui.handle_key_event(press(KeyCode::Down));
    tui.handle_key_event(press(KeyCode::Enter));
    type_text(&mut tui, "X");
    tui.handle_key_event(press(KeyCode::Tab));
    type_text(&mut tui, "5");
    tui.handle_key_event(press(KeyCode::Enter));
    assert_eq!(tui.operation_mode(), OperaMode::Select);
    let store = tui.gmesh_para();
    assert_eq!(store.vol_phy_list.len(), 1);
    assert_eq!(store.vol_phy_list[0].name, "X");
    assert_eq!(store.vol_phy_list[0].phys_id, "5");
    assert_eq!(store.vol_phy_list[0].vol_ids, "");
    assert!(!store.script().contains("Physical Volume("));
    assert!(tui.input_buf().is_empty());
    assert_eq!(tui.cursor().modify_type, ModifyType::NoField);
    assert_eq!((tui.cur_type(), tui.selected()), (TypeMode::Volume, Some(0)));
}

#[test]
fn committing_an_existing_row_replaces_it() {
    let mut tui = session(2, 2);
    tui.type_mode_right();
    tui.type_mode_right();
    tui.table_state_down();
    tui.select_to_modify();
    type_text(&mut tui, "!");
    tui.modify_tab();
    tui.modify_tab();
    type_text(&mut tui, ",9");
    tui.confirm_modification();
    let store = tui.gmesh_para();
    assert_eq!(store.surf_phy_list.len(), 2);
    assert_eq!(store.surf_phy_list[0].name, "s0");
    assert_eq!(store.surf_phy_list[1].name, "s1!");
    assert_eq!(store.surf_phy_list[1].phys_id, "12");
    assert_eq!(store.surf_phy_list[1].surf_ids, "2,9");
    assert_eq!(store.vol_phy_list.len(), 2);
}

#[test]
fn committing_the_mesh_size_sets_it() {
    let mut tui = session(0, 0);
    tui.type_mode_left();
    tui.select_to_modify();
    type_text(&mut tui, "0.5");
    tui.confirm_modification();
    assert_eq!(tui.gmesh_para().mesh_paras.max_size, "0.5");
    assert!(tui.gmesh_para().script().contains("Mesh.MeshSizeMax=0.5;\n"));
}

#[test]
fn escape_discards_the_buffer() {
    let mut tui = session(1, 0);
    tui.handle_key_event(press(KeyCode::Down));
    tui.handle_key_event(press(KeyCode::Enter));
    type_text(&mut tui, "zzz");
    tui.handle_key_event(press(KeyCode::Esc));
    assert_eq!(tui.operation_mode(), OperaMode::Select);
    assert!(!tui.should_exit());
    assert_eq!(tui.gmesh_para().vol_phy_list.len(), 1);
    assert_eq!(tui.gmesh_para().vol_phy_list[0].name, "v0");
    assert!(tui.input_buf().is_empty());
    assert_eq!(tui.selected(), Some(0));
}

#[test]
fn escape_while_selecting_ends_the_session() {
    let mut tui = session(1, 0);
    let action = tui.handle_key_event(press(KeyCode::Esc));
    assert_eq!(action, Action::Proceed);
    assert!(tui.should_exit());
}

#[test]
fn delete_removes_the_selected_group() {
    let mut tui = session(3, 0);
    tui.table_state_down();
    tui.table_state_down();
    tui.handle_key_event(press(KeyCode::Delete));
    let names: Vec<String> =
        tui.gmesh_para().vol_phy_list.iter().map(|g| g.name.clone()).collect();
    assert_eq!(names, vec!["v0", "v2"]);
    assert_eq!(tui.selected(), Some(1));
    tui.handle_key_event(press(KeyCode::Backspace));
    assert_eq!(tui.gmesh_para().vol_phy_list.len(), 1);
    assert_eq!(tui.selected(), Some(1));
    tui.handle_key_event(press(KeyCode::Backspace));
    assert_eq!(tui.gmesh_para().vol_phy_list.len(), 1);
    assert_eq!(tui.gmesh_para().vol_phy_list[0].name, "v0");
}

#[test]
fn delete_leaves_the_mesh_settings() {
    let mut tui = TUI::new(GmshPara {
        geometry_file: "part.step".to_string(),
        vol_phy_list: vec![vol("Body", "1", "1")],
        surf_phy_list: vec![],
        mesh_paras: MeshPara { max_size: "3".to_string() },
    });
    tui.type_mode_left();
    tui.delete_selected();
    assert_eq!(tui.gmesh_para().mesh_paras.max_size, "3");
    assert_eq!(tui.gmesh_para().vol_phy_list.len(), 1);
}

#[test]
fn only_presses_count() {
    let mut tui = session(1, 1);
    for kind in [KeyEventKind::Release, KeyEventKind::Repeat] {
        for code in [KeyCode::Down, KeyCode::Right, KeyCode::Esc, KeyCode::Char('a'), KeyCode::Enter]
        {
            let action = tui.handle_key_event(KeyEvent { code, kind });
            assert_eq!(action, Action::Proceed);
        }
    }
    assert_eq!((tui.cur_type(), tui.selected()), (TypeMode::NoneSelected, None));
    assert!(!tui.should_exit());
}

#[test]
fn the_letter_a_asks_for_the_mesher_only_while_selecting() {
    let mut tui = session(0, 0);
    assert_eq!(tui.handle_key_event(press(KeyCode::Char('a'))), Action::ApplyMesh);
    assert_eq!(tui.handle_key_event(press(KeyCode::Char('b'))), Action::Proceed);
    tui.handle_key_event(press(KeyCode::Down));
    tui.handle_key_event(press(KeyCode::Enter));
    assert_eq!(tui.handle_key_event(press(KeyCode::Char('a'))), Action::Proceed);
    assert_eq!(fields(&tui)[0], "a");
}

#[test]
fn keys_of_the_other_mode_do_nothing() {
    let mut tui = session(1, 1);
    tui.char_insert('x');
    tui.char_backspace();
    tui.char_delete();
    tui.cursor_left();
    tui.cursor_right();
    tui.modify_tab();
    tui.confirm_modification();
    tui.discard_modification();
    assert_eq!((tui.cur_type(), tui.selected()), (TypeMode::NoneSelected, None));
    assert!(tui.input_buf().is_empty());
    assert_eq!(tui.gmesh_para().vol_phy_list.len(), 1);
    tui.table_state_down();
    tui.select_to_modify();
    tui.table_state_down();
    tui.table_state_up();
    tui.type_mode_left();
    tui.type_mode_right();
    tui.delete_selected();
    tui.select_to_modify();
    tui.handle_key_event(press(KeyCode::Up));
    tui.handle_key_event(press(KeyCode::Down));
    tui.handle_key_event(press(KeyCode::Other));
    assert_eq!((tui.cur_type(), tui.selected()), (TypeMode::Volume, Some(0)));
    assert_eq!(tui.operation_mode(), OperaMode::Modify);
    assert_eq!(fields(&tui), vec!["v0", "1", "1"]);
    assert_eq!(tui.gmesh_para().vol_phy_list.len(), 1);
}

#[test]
fn a_whole_session_by_keys() {
    let mut tui = tui_start(
        "part.step".to_string(),
        &PhysPairList { vol_pairs: vec![], sur_pairs: vec![] },
    );
    let keys = [
        KeyCode::Right,
        KeyCode::Enter,
        KeyCode::Char('B'),
        KeyCode::Char('o'),
        KeyCode::Char('d'),
        KeyCode::Char('y'),
        KeyCode::Tab,
        KeyCode::Char('1'),
        KeyCode::Right,
        KeyCode::Char('1'),
        KeyCode::Char(','),
        KeyCode::Char('2'),
        KeyCode::Char(','),
        KeyCode::Char('3'),
        KeyCode::Enter,
        KeyCode::Right,
        KeyCode::Right,
        KeyCode::Enter,
        KeyCode::Char('0'),
        KeyCode::Char('.'),
        KeyCode::Char('5'),
        KeyCode::Enter,
    ];
    for code in keys {
        assert_eq!(tui.handle_key_event(press(code)), Action::Proceed);
    }
    assert_eq!(tui.handle_key_event(press(KeyCode::Char('a'))), Action::ApplyMesh);
    let job = tui.gmesh_para().apply_mesh().unwrap();
    assert_eq!(job.file_name, "part_temp.geo");
    let import = job.content.find("v()=ShapeFromFile(\"part.step\");\n").unwrap();
    let line = job.content.find("Physical Volume(\"Body\",1)={1,2,3};\n").unwrap();
    let size = job.content.find("Mesh.MeshSizeMax=0.5;\n").unwrap();
    let mesh = job.content.find("Mesh 3;\n").unwrap();
    assert!(import < line && line < size && size < mesh);
    assert_eq!(job.content.matches("Physical Volume(").count(), 1);
}
