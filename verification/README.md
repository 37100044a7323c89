# wow_network

The game rules of a World of Warcraft 1.12 world server, written in Verus
and proved against their contracts: what a request may do, what it costs,
where items go, and what the client is answered.

## Layout

- `src/` is the verified library. Each module states its rules as spec
  functions and proves the executable code against them:
  - `inventory`, `moves`, `equipment`, `bank`: storage positions and plans,
    inventory moves, equipping, ammunition, destroying items, the bank;
  - `quest`, `quest_progress`, `questgiver`: eligibility, the quest log,
    completion, rewards, kill credit, questgiver marks and lists;
  - `vendor`, `trade`, `trainer`: vendor stock and buyback, buying and
    selling, trainer spells;
  - `loot`: who may take what from a corpse, money shares, drop counts;
  - `auction`, `auction_search`, `mail`: auction houses, listings, bids,
    searches, mail rules and the inbox;
  - `gossip`, `taxi`, `death`, `reputation`, `character`, `navigation`,
    `gm`: the remaining interactions;
  - `packets`, `wire`, `guid`, `text`, `sorting`: wire formats, GUIDs, text
    and ordering helpers;
  - `laws`: properties that hold across operations.
- `tests/` runs the library on concrete values.
- `app/` holds what stays outside the proofs: floating-point positions,
  rates and drop chances, built on the library.
