use wow_network::guid::ObjectGuid;
use wow_network::gm::{
    find_gm_waypoint, first_i32, first_u32, gm_command_gate, gm_delete_target, gm_deleted_message, gm_kill_refusal,
    gm_missing_template_message, gm_selected_creature, gm_spawned_message, gm_gate_message, gm_level_change_message,
    gm_mode_player_flags, gm_mode_status_message, gm_relative_level, gm_unknown_command_message, GmCommandGate, normalize_gm_waypoint_name, parse_gm_dot_command,
    GmDotCommand,
};

fn chars(text: &str) -> Vec<char> {
    text.chars().collect()
}

#[test]
fn first_u32_reads_the_first_digit_run() {
    assert_eq!(first_u32("add 1234 5"), Some(1234));
    assert_eq!(first_u32("x12y"), Some(12));
    assert_eq!(first_u32("none"), None);
    assert_eq!(first_u32(""), None);
    assert_eq!(first_u32("-7"), Some(7));
    assert_eq!(first_u32("4294967295"), Some(u32::MAX));
    assert_eq!(first_u32("4294967296 1"), None);
}

#[test]
fn first_i32_reads_a_signed_number_after_white_space() {
    assert_eq!(first_i32("  -5 levels"), Some(-5));
    assert_eq!(first_i32("+3"), Some(3));
    assert_eq!(first_i32("7x"), Some(7));
    assert_eq!(first_i32("x7"), None);
    assert_eq!(first_i32("-"), None);
    assert_eq!(first_i32("\u{3000}9"), Some(9));
    assert_eq!(first_i32("-2147483648"), Some(i32::MIN));
    assert_eq!(first_i32("2147483648"), None);
}

#[test]
fn relative_levels_stay_between_one_and_the_cap() {
    assert_eq!(gm_relative_level(10, 5), 15);
    assert_eq!(gm_relative_level(10, -50), 1);
    assert_eq!(gm_relative_level(59, 5), 60);
    assert_eq!(gm_relative_level(1, i32::MIN), 1);
}

#[test]
fn waypoint_names_ignore_case_and_punctuation() {
    assert_eq!(normalize_gm_waypoint_name("Booty Bay!"), "bootybay");
    assert_eq!(normalize_gm_waypoint_name("Éa-1"), "a1");
    assert_eq!(find_gm_waypoint("Booty Bay"), Some(6));
    assert_eq!(find_gm_waypoint("IF"), Some(3));
    assert_eq!(find_gm_waypoint("northshire abbey"), Some(0));
    assert_eq!(find_gm_waypoint("moonglade"), None);
}

#[test]
fn dot_commands_are_recognised() {
    assert_eq!(parse_gm_dot_command("hello"), None);
    assert_eq!(parse_gm_dot_command("  .DIE  "), Some(Ok(GmDotCommand::Die)));
    assert_eq!(parse_gm_dot_command(".die now"), Some(Ok(GmDotCommand::Die)));
    assert_eq!(parse_gm_dot_command(".gm"), Some(Ok(GmDotCommand::Gm(None))));
    assert_eq!(parse_gm_dot_command(".gm ON"), Some(Ok(GmDotCommand::Gm(Some(true)))));
    assert_eq!(parse_gm_dot_command(".gm 0"), Some(Ok(GmDotCommand::Gm(Some(false)))));
    assert_eq!(parse_gm_dot_command(".gm maybe"), Some(Err("Syntax: .gm on/off".to_string())));
    assert_eq!(parse_gm_dot_command(".levelup"), Some(Ok(GmDotCommand::LevelUp(1))));
    assert_eq!(parse_gm_dot_command(".level"), Some(Ok(GmDotCommand::LevelUp(1))));
    assert_eq!(parse_gm_dot_command(".levelup -3"), Some(Ok(GmDotCommand::LevelUp(-3))));
    assert_eq!(parse_gm_dot_command(".level x"), Some(Err("Syntax: .level [#levels]".to_string())));
    assert_eq!(parse_gm_dot_command(".character level 80"), Some(Ok(GmDotCommand::LevelSet(60))));
    assert_eq!(parse_gm_dot_command(".character level 12"), Some(Ok(GmDotCommand::LevelSet(12))));
    assert_eq!(
        parse_gm_dot_command(".character level 0"),
        Some(Err("Syntax: .character level #level".to_string()))
    );
    assert_eq!(parse_gm_dot_command(".npc add 299"), Some(Ok(GmDotCommand::NpcAdd(299))));
    assert_eq!(parse_gm_dot_command(".npc add"), Some(Err("Syntax: .npc add #creatureid".to_string())));
    assert_eq!(parse_gm_dot_command(".npc delete"), Some(Ok(GmDotCommand::NpcDelete(None))));
    assert_eq!(parse_gm_dot_command(".npc delete 12"), Some(Ok(GmDotCommand::NpcDelete(Some(12)))));
    assert_eq!(
        parse_gm_dot_command(".go"),
        Some(Err("Syntax: .go #x #y [#z [#mapid]] or .go #waypoint".to_string()))
    );
    assert_eq!(parse_gm_dot_command(".Go Booty Bay"), Some(Ok(GmDotCommand::Go(chars(" Booty Bay")))));
    assert_eq!(parse_gm_dot_command(".modify speed 2.5"), Some(Ok(GmDotCommand::ModifySpeed(chars("2.5")))));
    assert_eq!(parse_gm_dot_command(".unknown"), None);
}

#[test]
fn level_change_messages() {
    assert_eq!(gm_level_change_message(12, 12), "Level remains 12.");
    assert_eq!(gm_level_change_message(9, 60), "Your level increased from 9 to 60.");
    assert_eq!(gm_level_change_message(60, 1), "Your level decreased from 60 to 1.");
}

#[test]
fn command_gates_by_security_and_mode() {
    assert_eq!(gm_command_gate(&GmDotCommand::Gm(Some(true)), 1, false), GmCommandGate::Allowed);
    assert_eq!(gm_command_gate(&GmDotCommand::Gm(None), 0, true), GmCommandGate::NoPermission);
    assert_eq!(gm_command_gate(&GmDotCommand::Die, 2, true), GmCommandGate::NoPermission);
    assert_eq!(gm_command_gate(&GmDotCommand::Die, 3, false), GmCommandGate::GmModeOff);
    assert_eq!(gm_command_gate(&GmDotCommand::NpcAdd(5), 2, true), GmCommandGate::Allowed);
    assert_eq!(gm_command_gate(&GmDotCommand::Go(chars("sw")), 1, true), GmCommandGate::Allowed);
    assert_eq!(gm_gate_message(GmCommandGate::Allowed), None);
    assert_eq!(gm_gate_message(GmCommandGate::NoPermission), Some("You do not have permission to use that command."));
    assert_eq!(gm_gate_message(GmCommandGate::GmModeOff), Some("You must turn GM mode on first with .gm on."));
    assert_eq!(gm_unknown_command_message(true), "Unknown command.");
    assert_eq!(gm_unknown_command_message(false), "You must turn GM mode on first with .gm on.");
    assert_eq!(gm_mode_status_message(true), "GM mode is ON.");
    assert_eq!(gm_mode_player_flags(0x11, true), 0x19);
    assert_eq!(gm_mode_player_flags(0x19, false), 0x11);
}

#[test]
fn creature_targets_and_messages() {
    let creature = ObjectGuid::from_raw(0xF130_0000_0100_0005);
    let player = ObjectGuid::from_raw(5);
    assert_eq!(gm_selected_creature(Some(creature)), Ok(creature));
    assert_eq!(gm_selected_creature(None), Err("Select a creature first."));
    assert_eq!(gm_selected_creature(Some(player)), Err("Selected target is not a creature."));
    assert_eq!(gm_delete_target(Some(77), None), Ok(None));
    assert_eq!(gm_delete_target(None, Some(creature)), Ok(Some(creature)));
    assert_eq!(gm_delete_target(None, None), Err("Select a creature first."));
    assert_eq!(gm_kill_refusal(Some(true)), None);
    assert_eq!(gm_kill_refusal(Some(false)), Some("Selected creature is already dead."));
    assert_eq!(gm_kill_refusal(None), Some("Selected creature is not spawned on this map."));
    assert_eq!(gm_spawned_message("Kobold Vermin", 6, 1201), "Spawned Kobold Vermin (6) with guid 1201.");
    assert_eq!(gm_missing_template_message(99999), "Creature template 99999 was not found.");
    assert_eq!(gm_deleted_message("Kobold Vermin", 80), "Deleted Kobold Vermin (80) from the live map runtime.");
}
