//! Gossip menus: which options a creature offers, which greeting text it
//! shows, and what choosing an option does.
use vstd::prelude::*;
use crate::guid::ObjectGuid;

verus! {

pub const GOSSIP_OPTION_NONE: u32 = 0;
pub const GOSSIP_OPTION_GOSSIP: u32 = 1;
pub const GOSSIP_OPTION_QUESTGIVER: u32 = 2;
pub const GOSSIP_OPTION_VENDOR: u32 = 3;
pub const GOSSIP_OPTION_TAXIVENDOR: u32 = 4;
pub const GOSSIP_OPTION_TRAINER: u32 = 5;
pub const GOSSIP_OPTION_SPIRITHEALER: u32 = 6;
pub const GOSSIP_OPTION_SPIRITGUIDE: u32 = 7;
pub const GOSSIP_OPTION_INNKEEPER: u32 = 8;
pub const GOSSIP_OPTION_BANKER: u32 = 9;
pub const GOSSIP_OPTION_PETITIONER: u32 = 10;
pub const GOSSIP_OPTION_TABARDDESIGNER: u32 = 11;
pub const GOSSIP_OPTION_BATTLEFIELD: u32 = 12;
pub const GOSSIP_OPTION_AUCTIONEER: u32 = 13;
pub const GOSSIP_OPTION_STABLEPET: u32 = 14;
pub const GOSSIP_OPTION_ARMORER: u32 = 15;
pub const GOSSIP_OPTION_UNLEARNTALENTS: u32 = 16;
pub const GOSSIP_OPTION_UNLEARNPETSKILLS: u32 = 17;
pub const GOSSIP_ICON_CHAT: u8 = 0;
pub const GOSSIP_ICON_MAX: u8 = 11;
pub const DEFAULT_GOSSIP_MESSAGE: u32 = 0xFF_FFFF;
pub const UNIT_NPC_FLAG_GOSSIP: u32 = 0x0000_0001;
pub const UNIT_NPC_FLAG_QUESTGIVER: u32 = 0x0000_0002;
pub const UNIT_NPC_FLAG_SPIRITHEALER: u32 = 0x0000_0020;

/// Icons the client knows are kept; others show as a chat bubble.
pub fn gossip_icon_or_default(icon: u8) -> (shown: u8)
    ensures
        shown == if icon < GOSSIP_ICON_MAX { icon } else { GOSSIP_ICON_CHAT },
{
    if icon < GOSSIP_ICON_MAX {
        icon
    } else {
        GOSSIP_ICON_CHAT
    }
}

/// A gossip option the client picked.
#[derive(Clone, Copy, Debug, PartialEq, Eq, Structural)]
pub struct GossipSelectOption {
    pub guid: ObjectGuid,
    pub option: u32,
}

impl GossipSelectOption {
    /// Only the first option of a browse menu is served.
    pub fn is_supported_browse_option(&self) -> (supported: bool)
        ensures
            supported == (self.option == 0),
    {
        self.option == 0
    }
}

/// Whether a creature has any of the NPC flags in `flag`.
pub fn creature_has_npc_flag(npc_flags: u32, flag: u32) -> (has: bool)
    ensures
        has == (npc_flags & flag != 0),
{
    npc_flags & flag != 0
}

/// Spirit healers carry the spirit healer NPC flag.
pub fn is_spirit_healer_creature(npc_flags: u32) -> (healer: bool)
    ensures
        healer == (npc_flags & UNIT_NPC_FLAG_SPIRITHEALER != 0),
{
    npc_flags & UNIT_NPC_FLAG_SPIRITHEALER != 0
}

/// Whether a menu option is listed, and whether failing its condition also
/// hides the creature's quests.
#[derive(Clone, Copy, Debug, PartialEq, Eq, Structural)]
pub enum GossipOptionVisibility {
    Show,
    Hide,
    HideQuestMenu,
}

/// What the option rules know of the creature being talked to.
#[derive(Clone, Copy, Debug, PartialEq, Eq, Structural)]
pub struct GossipServiceState {
    pub npc_flags: u32,
    pub has_vendor_items: bool,
    pub has_trainer_spells: bool,
    pub is_spirit_healer: bool,
    pub is_dead: bool,
}

/// One stored option of a gossip menu.
#[derive(Clone, Debug)]
pub struct GossipMenuOptionQuery {
    pub option_id: u32,
    pub option_icon: u8,
    pub option_text: Option<String>,
    pub box_coded: u8,
    pub npc_option_npcflag: u32,
    pub action_menu_id: i32,
    pub action_poi_id: u32,
    pub action_script_id: u32,
    pub condition_id: u32,
}

pub open spec fn always_shown_service(option_id: u32) -> bool {
    option_id == GOSSIP_OPTION_TAXIVENDOR || option_id == GOSSIP_OPTION_SPIRITGUIDE || option_id
        == GOSSIP_OPTION_INNKEEPER || option_id == GOSSIP_OPTION_BANKER || option_id == GOSSIP_OPTION_PETITIONER
        || option_id == GOSSIP_OPTION_TABARDDESIGNER || option_id == GOSSIP_OPTION_BATTLEFIELD || option_id
        == GOSSIP_OPTION_AUCTIONEER || option_id == GOSSIP_OPTION_STABLEPET || option_id
        == GOSSIP_OPTION_UNLEARNTALENTS || option_id == GOSSIP_OPTION_UNLEARNPETSKILLS
}

pub open spec fn visibility_spec(
    option_id: u32,
    npc_option_npcflag: u32,
    condition_satisfied: bool,
    state: GossipServiceState,
) -> GossipOptionVisibility {
    if !condition_satisfied {
        if option_id == GOSSIP_OPTION_QUESTGIVER {
            GossipOptionVisibility::HideQuestMenu
        } else {
            GossipOptionVisibility::Hide
        }
    } else if npc_option_npcflag != 0 && npc_option_npcflag & state.npc_flags == 0 {
        GossipOptionVisibility::Hide
    } else if option_id == GOSSIP_OPTION_GOSSIP {
        GossipOptionVisibility::Show
    } else if option_id == GOSSIP_OPTION_VENDOR || option_id == GOSSIP_OPTION_ARMORER {
        if state.has_vendor_items { GossipOptionVisibility::Show } else { GossipOptionVisibility::Hide }
    } else if option_id == GOSSIP_OPTION_TRAINER {
        if state.has_trainer_spells { GossipOptionVisibility::Show } else { GossipOptionVisibility::Hide }
    } else if option_id == GOSSIP_OPTION_SPIRITHEALER {
        if state.is_spirit_healer && state.is_dead { GossipOptionVisibility::Show } else { GossipOptionVisibility::Hide }
    } else if always_shown_service(option_id) {
        GossipOptionVisibility::Show
    } else {
        GossipOptionVisibility::Hide
    }
}

/// Whether an option row is listed. `condition_satisfied` is the verdict on
/// the row's condition (true for a row without one). A failed condition on
/// the quest option hides the quest list too; an option whose NPC flag the
/// creature lacks is hidden; services show when the creature has something
/// to offer (vendor items, trainer spells, a spirit healer for the dead).
pub fn gossip_option_visibility(
    option_id: u32,
    npc_option_npcflag: u32,
    condition_satisfied: bool,
    state: &GossipServiceState,
) -> (visibility: GossipOptionVisibility)
    ensures
        visibility == visibility_spec(option_id, npc_option_npcflag, condition_satisfied, *state),
{
    if !condition_satisfied {
        return if option_id == GOSSIP_OPTION_QUESTGIVER {
            GossipOptionVisibility::HideQuestMenu
        } else {
            GossipOptionVisibility::Hide
        };
    }
    if npc_option_npcflag != 0 && npc_option_npcflag & state.npc_flags == 0 {
        return GossipOptionVisibility::Hide;
    }
    if option_id == GOSSIP_OPTION_GOSSIP {
        GossipOptionVisibility::Show
    } else if option_id == GOSSIP_OPTION_VENDOR || option_id == GOSSIP_OPTION_ARMORER {
        if state.has_vendor_items { GossipOptionVisibility::Show } else { GossipOptionVisibility::Hide }
    } else if option_id == GOSSIP_OPTION_TRAINER {
        if state.has_trainer_spells { GossipOptionVisibility::Show } else { GossipOptionVisibility::Hide }
    } else if option_id == GOSSIP_OPTION_SPIRITHEALER {
        if state.is_spirit_healer && state.is_dead { GossipOptionVisibility::Show } else { GossipOptionVisibility::Hide }
    } else if option_id == GOSSIP_OPTION_TAXIVENDOR || option_id == GOSSIP_OPTION_SPIRITGUIDE || option_id
        == GOSSIP_OPTION_INNKEEPER || option_id == GOSSIP_OPTION_BANKER || option_id == GOSSIP_OPTION_PETITIONER
        || option_id == GOSSIP_OPTION_TABARDDESIGNER || option_id == GOSSIP_OPTION_BATTLEFIELD || option_id
        == GOSSIP_OPTION_AUCTIONEER || option_id == GOSSIP_OPTION_STABLEPET || option_id
        == GOSSIP_OPTION_UNLEARNTALENTS || option_id == GOSSIP_OPTION_UNLEARNPETSKILLS {
        GossipOptionVisibility::Show
    } else {
        GossipOptionVisibility::Hide
    }
}

// ---------------------------------------------------------------------------
// Greeting text

/// One stored greeting of a gossip menu.
#[derive(Clone, Copy, Debug, PartialEq, Eq, Structural)]
pub struct GossipMenuRow {
    pub text_id: u32,
    pub script_id: u32,
    pub condition_id: u32,
}

/// The greeting after the first `n` rows, and the condition that chose it:
/// a row without a condition counts while no conditional row was chosen; a
/// conditional row counts when its condition is higher than the last chosen
/// one and holds.
pub open spec fn text_choice(rows: Seq<GossipMenuRow>, satisfied: Seq<bool>, n: int) -> (u32, u32)
    decreases n,
{
    if n <= 0 {
        (DEFAULT_GOSSIP_MESSAGE, 0)
    } else {
        let (text_id, last_condition) = text_choice(rows, satisfied, n - 1);
        let row = rows[n - 1];
        let matches = if row.condition_id == 0 {
            last_condition == 0
        } else {
            row.condition_id > last_condition && satisfied[n - 1]
        };
        if matches { (row.text_id, row.condition_id) } else { (text_id, last_condition) }
    }
}

/// The greeting text of menu `menu_id`. `condition_satisfied[i]` is the
/// verdict on the condition of `rows[i]`.
pub fn gossip_menu_text_id(menu_id: u32, rows: &[GossipMenuRow], condition_satisfied: &[bool]) -> (text_id: u32)
    requires
        rows@.len() == condition_satisfied@.len(),
    ensures
        text_id == if menu_id == 0 {
            DEFAULT_GOSSIP_MESSAGE
        } else {
            text_choice(rows@, condition_satisfied@, rows@.len() as int).0
        },
{
    if menu_id == 0 {
        return DEFAULT_GOSSIP_MESSAGE;
    }
    let mut text_id = DEFAULT_GOSSIP_MESSAGE;
    let mut last_condition_id: u32 = 0;
    let mut i: usize = 0;
    while i < rows.len()
        invariant
            rows@.len() == condition_satisfied@.len(),
            i <= rows.len(),
            (text_id, last_condition_id) == text_choice(rows@, condition_satisfied@, i as int),
        decreases rows.len() - i,
    {
        let row = rows[i];
        let matches = if row.condition_id == 0 {
            last_condition_id == 0
        } else {
            row.condition_id > last_condition_id && condition_satisfied[i]
        };
        if matches {
            last_condition_id = row.condition_id;
            text_id = row.text_id;
        }
        i += 1;
    }
    text_id
}

// ---------------------------------------------------------------------------
// Menus

/// An option as the gossip message lists it.
#[derive(Clone, Debug)]
pub struct GossipMessageOption {
    pub option_index: u32,
    pub icon: u8,
    pub coded: u8,
    pub text: String,
}

/// What choosing a listed option does.
#[derive(Clone, Copy, Debug, PartialEq, Eq, Structural)]
pub struct GossipSessionOption {
    pub option_id: u32,
    pub action_menu_id: i32,
    pub action_poi_id: u32,
    pub action_script_id: u32,
}

/// The options a menu lists, what each does, and whether the quest list
/// stays visible.
pub struct GossipMenuOptions {
    pub options: Vec<GossipMessageOption>,
    pub option_actions: Vec<GossipSessionOption>,
    pub can_see_quests: bool,
}

/// The rows that are listed, in order.
pub open spec fn shown_rows(rows: Seq<GossipMenuOptionQuery>, visibility: Seq<GossipOptionVisibility>) -> Seq<
    GossipMenuOptionQuery,
>
    decreases rows.len(),
{
    if rows.len() == 0 {
        Seq::empty()
    } else {
        let before = shown_rows(rows.drop_last(), visibility.take(rows.len() - 1));
        if visibility[rows.len() - 1] == GossipOptionVisibility::Show {
            before.push(rows.last())
        } else {
            before
        }
    }
}

pub open spec fn hides_quests(visibility: Seq<GossipOptionVisibility>) -> bool {
    exists|i: int| 0 <= i < visibility.len() && #[trigger] visibility[i] == GossipOptionVisibility::HideQuestMenu
}

pub open spec fn option_text_view(text: Option<String>) -> Seq<char> {
    match text {
        Some(t) => t@,
        None => Seq::empty(),
    }
}

/// Lists the shown rows, numbered in order, with their icons made safe and
/// their texts (empty when missing); any row hidden together with the quest
/// menu hides the quests.
pub fn collect_gossip_options(
    rows: &[GossipMenuOptionQuery],
    visibility: &[GossipOptionVisibility],
    can_see_quests: bool,
) -> (menu: GossipMenuOptions)
    requires
        rows@.len() == visibility@.len(),
        rows@.len() <= u32::MAX,
    ensures
        menu.options@.len() == shown_rows(rows@, visibility@).len(),
        menu.option_actions@.len() == shown_rows(rows@, visibility@).len(),
        forall|k: int| 0 <= k < menu.options@.len() ==> {
            let row = #[trigger] shown_rows(rows@, visibility@)[k];
            &&& menu.options@[k].option_index == k
            &&& menu.options@[k].icon == if row.option_icon < GOSSIP_ICON_MAX { row.option_icon } else { GOSSIP_ICON_CHAT }
            &&& menu.options@[k].coded == if row.box_coded != 0 { 1u8 } else { 0u8 }
            &&& menu.options@[k].text@ == option_text_view(row.option_text)
            &&& menu.option_actions@[k] == GossipSessionOption {
                option_id: row.option_id,
                action_menu_id: row.action_menu_id,
                action_poi_id: row.action_poi_id,
                action_script_id: row.action_script_id,
            }
        },
        menu.can_see_quests == (can_see_quests && !hides_quests(visibility@)),
{
    let mut options: Vec<GossipMessageOption> = Vec::new();
    let mut option_actions: Vec<GossipSessionOption> = Vec::new();
    let mut see_quests = can_see_quests;
    let mut i: usize = 0;
    while i < rows.len()
        invariant
            rows@.len() == visibility@.len(),
            rows@.len() <= u32::MAX,
            i <= rows.len(),
            options@.len() == shown_rows(rows@.take(i as int), visibility@.take(i as int)).len(),
            option_actions@.len() == options@.len(),
            options@.len() <= i,
            forall|k: int| 0 <= k < options@.len() ==> {
                let row = #[trigger] shown_rows(rows@.take(i as int), visibility@.take(i as int))[k];
                &&& options@[k].option_index == k
                &&& options@[k].icon == if row.option_icon < GOSSIP_ICON_MAX { row.option_icon } else { GOSSIP_ICON_CHAT }
                &&& options@[k].coded == if row.box_coded != 0 { 1u8 } else { 0u8 }
                &&& options@[k].text@ == option_text_view(row.option_text)
                &&& option_actions@[k] == GossipSessionOption {
                    option_id: row.option_id,
                    action_menu_id: row.action_menu_id,
                    action_poi_id: row.action_poi_id,
                    action_script_id: row.action_script_id,
                }
            },
            see_quests == (can_see_quests && !hides_quests(visibility@.take(i as int))),
        decreases rows.len() - i,
    {
        let ghost prev_rows = rows@.take(i as int);
        let ghost prev_vis = visibility@.take(i as int);
        assert(rows@.take(i + 1).drop_last() =~= prev_rows);
        assert(visibility@.take(i + 1).take(i as int) =~= prev_vis);
        assert(rows@.take(i + 1).last() == rows@[i as int]);
        assert(visibility@.take(i + 1)[i as int] == visibility@[i as int]);
        let ghost before = shown_rows(prev_rows, prev_vis);
        match visibility[i] {
            GossipOptionVisibility::Show => {
                let row = &rows[i];
                let text = match &row.option_text {
                    Some(t) => t.clone(),
                    None => String::new(),
                };
                let index = options.len() as u32;
                options.push(GossipMessageOption {
                    option_index: index,
                    icon: gossip_icon_or_default(row.option_icon),
                    coded: if row.box_coded != 0 { 1 } else { 0 },
                    text,
                });
                option_actions.push(GossipSessionOption {
                    option_id: row.option_id,
                    action_menu_id: row.action_menu_id,
                    action_poi_id: row.action_poi_id,
                    action_script_id: row.action_script_id,
                });
            },
            GossipOptionVisibility::HideQuestMenu => {
                see_quests = false;
            },
            GossipOptionVisibility::Hide => {},
        }
        proof {
            assert(hides_quests(visibility@.take(i + 1)) == (hides_quests(prev_vis) || visibility@[i as int]
                == GossipOptionVisibility::HideQuestMenu)) by {
                if hides_quests(visibility@.take(i + 1)) {
                    let k = choose|k: int| 0 <= k < i + 1 && #[trigger] visibility@.take(i + 1)[k]
                        == GossipOptionVisibility::HideQuestMenu;
                    if k < i {
                        assert(prev_vis[k] == GossipOptionVisibility::HideQuestMenu);
                    }
                }
                if hides_quests(prev_vis) {
                    let k = choose|k: int| 0 <= k < i && #[trigger] prev_vis[k] == GossipOptionVisibility::HideQuestMenu;
                    assert(visibility@.take(i + 1)[k] == GossipOptionVisibility::HideQuestMenu);
                }
                if visibility@[i as int] == GossipOptionVisibility::HideQuestMenu {
                    assert(visibility@.take(i + 1)[i as int] == GossipOptionVisibility::HideQuestMenu);
                }
            }
        }
        i += 1;
    }
    assert(rows@.take(rows@.len() as int) =~= rows@);
    assert(visibility@.take(visibility@.len() as int) =~= visibility@);
    GossipMenuOptions { options, option_actions, can_see_quests: see_quests }
}

/// Whether the greeting shows the quest list alone: no options, some
/// quests, and no gossip flag on the creature.
pub fn gossip_shows_quest_list_only(option_count: usize, quest_count: usize, npc_flags: u32) -> (quest_list: bool)
    ensures
        quest_list == (option_count == 0 && quest_count > 0 && npc_flags & UNIT_NPC_FLAG_GOSSIP == 0),
{
    option_count == 0 && quest_count > 0 && npc_flags & UNIT_NPC_FLAG_GOSSIP == 0
}

/// What choosing an option leads to.
#[derive(Clone, Copy, Debug, PartialEq, Eq, Structural)]
pub enum GossipSelectionAction {
    /// Open gossip menu `menu_id`, closing the window if it has nothing.
    OpenMenu { menu_id: u32 },
    /// Leave the window as it is.
    Stay,
    /// Close the gossip window.
    Complete,
    ShowVendor,
    ShowTrainer,
    /// Close the window and resurrect at the spirit healer.
    SpiritHealer,
}

pub fn gossip_selection_action(action: &GossipSessionOption) -> (next: GossipSelectionAction)
    ensures
        next == if action.option_id == GOSSIP_OPTION_GOSSIP {
            if action.action_menu_id > 0 {
                GossipSelectionAction::OpenMenu { menu_id: action.action_menu_id as u32 }
            } else if action.action_menu_id == 0 {
                GossipSelectionAction::Stay
            } else {
                GossipSelectionAction::Complete
            }
        } else if action.option_id == GOSSIP_OPTION_VENDOR || action.option_id == GOSSIP_OPTION_ARMORER {
            GossipSelectionAction::ShowVendor
        } else if action.option_id == GOSSIP_OPTION_TRAINER {
            GossipSelectionAction::ShowTrainer
        } else if action.option_id == GOSSIP_OPTION_SPIRITHEALER {
            GossipSelectionAction::SpiritHealer
        } else {
            GossipSelectionAction::Complete
        },
{
    if action.option_id == GOSSIP_OPTION_GOSSIP {
        if action.action_menu_id > 0 {
            GossipSelectionAction::OpenMenu { menu_id: action.action_menu_id as u32 }
        } else if action.action_menu_id == 0 {
            GossipSelectionAction::Stay
        } else {
            GossipSelectionAction::Complete
        }
    } else if action.option_id == GOSSIP_OPTION_VENDOR || action.option_id == GOSSIP_OPTION_ARMORER {
        GossipSelectionAction::ShowVendor
    } else if action.option_id == GOSSIP_OPTION_TRAINER {
        GossipSelectionAction::ShowTrainer
    } else if action.option_id == GOSSIP_OPTION_SPIRITHEALER {
        GossipSelectionAction::SpiritHealer
    } else {
        GossipSelectionAction::Complete
    }
}

} // verus!
