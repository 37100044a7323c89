use wow_network::gossip::{
    collect_gossip_options, creature_has_npc_flag, gossip_icon_or_default, gossip_menu_text_id,
    gossip_option_visibility, gossip_selection_action, gossip_shows_quest_list_only, is_spirit_healer_creature,
    GossipMenuOptionQuery, GossipMenuRow, GossipOptionVisibility, GossipSelectOption, GossipSelectionAction,
    GossipServiceState, GossipSessionOption, DEFAULT_GOSSIP_MESSAGE, GOSSIP_OPTION_BANKER, GOSSIP_OPTION_GOSSIP,
    GOSSIP_OPTION_QUESTGIVER, GOSSIP_OPTION_SPIRITHEALER, GOSSIP_OPTION_TRAINER, GOSSIP_OPTION_VENDOR,
};
use wow_network::guid::ObjectGuid;

fn state(vendor: bool, trainer: bool, healer: bool, dead: bool) -> GossipServiceState {
    GossipServiceState { npc_flags: 0x80, has_vendor_items: vendor, has_trainer_spells: trainer, is_spirit_healer: healer, is_dead: dead }
}

fn row(option_id: u32, icon: u8, text: Option<&str>) -> GossipMenuOptionQuery {
    GossipMenuOptionQuery {
        option_id,
        option_icon: icon,
        option_text: text.map(str::to_string),
        box_coded: 0,
        npc_option_npcflag: 0,
        action_menu_id: 3,
        action_poi_id: 0,
        action_script_id: 0,
        condition_id: 0,
    }
}

#[test]
fn icons_and_flags() {
    assert_eq!(gossip_icon_or_default(3), 3);
    assert_eq!(gossip_icon_or_default(11), 0);
    assert!(creature_has_npc_flag(0x81, 0x80));
    assert!(!creature_has_npc_flag(0x81, 0x2));
    assert!(is_spirit_healer_creature(0x20));
    assert!(GossipSelectOption { guid: ObjectGuid::from_raw(1), option: 0 }.is_supported_browse_option());
    assert!(!GossipSelectOption { guid: ObjectGuid::from_raw(1), option: 1 }.is_supported_browse_option());
}

#[test]
fn option_visibility() {
    let s = state(true, false, true, false);
    assert_eq!(gossip_option_visibility(GOSSIP_OPTION_QUESTGIVER, 0, false, &s), GossipOptionVisibility::HideQuestMenu);
    assert_eq!(gossip_option_visibility(GOSSIP_OPTION_GOSSIP, 0, false, &s), GossipOptionVisibility::Hide);
    assert_eq!(gossip_option_visibility(GOSSIP_OPTION_GOSSIP, 0x4, true, &s), GossipOptionVisibility::Hide);
    assert_eq!(gossip_option_visibility(GOSSIP_OPTION_GOSSIP, 0x80, true, &s), GossipOptionVisibility::Show);
    assert_eq!(gossip_option_visibility(GOSSIP_OPTION_VENDOR, 0, true, &s), GossipOptionVisibility::Show);
    assert_eq!(gossip_option_visibility(GOSSIP_OPTION_TRAINER, 0, true, &s), GossipOptionVisibility::Hide);
    assert_eq!(gossip_option_visibility(GOSSIP_OPTION_SPIRITHEALER, 0, true, &s), GossipOptionVisibility::Hide);
    let ghost = state(false, false, true, true);
    assert_eq!(gossip_option_visibility(GOSSIP_OPTION_SPIRITHEALER, 0, true, &ghost), GossipOptionVisibility::Show);
    assert_eq!(gossip_option_visibility(GOSSIP_OPTION_BANKER, 0, true, &ghost), GossipOptionVisibility::Show);
    assert_eq!(gossip_option_visibility(GOSSIP_OPTION_QUESTGIVER, 0, true, &ghost), GossipOptionVisibility::Hide);
    assert_eq!(gossip_option_visibility(99, 0, true, &ghost), GossipOptionVisibility::Hide);
}

#[test]
fn greeting_text_follows_conditions() {
    let rows = [
        GossipMenuRow { text_id: 10, script_id: 0, condition_id: 0 },
        GossipMenuRow { text_id: 20, script_id: 0, condition_id: 5 },
        GossipMenuRow { text_id: 30, script_id: 0, condition_id: 0 },
        GossipMenuRow { text_id: 40, script_id: 0, condition_id: 4 },
    ];
    assert_eq!(gossip_menu_text_id(0, &rows, &[true; 4]), DEFAULT_GOSSIP_MESSAGE);
    assert_eq!(gossip_menu_text_id(1, &rows, &[true, true, true, true]), 20);
    assert_eq!(gossip_menu_text_id(1, &rows, &[true, false, true, true]), 40);
    assert_eq!(gossip_menu_text_id(1, &rows, &[true, false, true, false]), 30);
    assert_eq!(gossip_menu_text_id(1, &[], &[]), DEFAULT_GOSSIP_MESSAGE);
}

#[test]
fn menus_list_shown_options_in_order() {
    let rows = vec![row(1, 2, Some("Hello")), row(3, 20, None), row(2, 0, Some("quests")), row(9, 1, Some("Bank"))];
    let visibility = [
        GossipOptionVisibility::Show,
        GossipOptionVisibility::Hide,
        GossipOptionVisibility::HideQuestMenu,
        GossipOptionVisibility::Show,
    ];
    let menu = collect_gossip_options(&rows, &visibility, true);
    assert_eq!(menu.options.len(), 2);
    assert_eq!(menu.options[0].option_index, 0);
    assert_eq!(menu.options[0].text, "Hello");
    assert_eq!(menu.options[1].option_index, 1);
    assert_eq!(menu.options[1].icon, 1);
    assert_eq!(menu.option_actions[1].option_id, 9);
    assert!(!menu.can_see_quests);
    let menu = collect_gossip_options(&rows[1..2], &[GossipOptionVisibility::Show], true);
    assert_eq!(menu.options[0].icon, 0);
    assert_eq!(menu.options[0].text, "");
    assert!(menu.can_see_quests);
    assert!(gossip_shows_quest_list_only(0, 2, 0x2));
    assert!(!gossip_shows_quest_list_only(0, 2, 0x3));
}

#[test]
fn choosing_options() {
    let action = |option_id: u32, menu: i32| GossipSessionOption { option_id, action_menu_id: menu, action_poi_id: 0, action_script_id: 0 };
    assert_eq!(gossip_selection_action(&action(1, 7)), GossipSelectionAction::OpenMenu { menu_id: 7 });
    assert_eq!(gossip_selection_action(&action(1, 0)), GossipSelectionAction::Stay);
    assert_eq!(gossip_selection_action(&action(1, -1)), GossipSelectionAction::Complete);
    assert_eq!(gossip_selection_action(&action(15, 0)), GossipSelectionAction::ShowVendor);
    assert_eq!(gossip_selection_action(&action(5, 0)), GossipSelectionAction::ShowTrainer);
    assert_eq!(gossip_selection_action(&action(6, 0)), GossipSelectionAction::SpiritHealer);
    assert_eq!(gossip_selection_action(&action(13, 0)), GossipSelectionAction::Complete);
}
