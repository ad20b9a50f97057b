# final_project

A crowdfunding program for Solana. Creators open campaigns, donors send lamports
until the goal or the deposit deadline, and the raised funds are either claimed by
the creator (less a protocol fee) or spent by the operator on a pump.fun token for
the campaign, whose tokens the creator later claims (less a tip) or sells.

- `src/` is the verified library (Verus). Each instruction is a function from the
  accounts' state and the runtime's values (signer keys, clock, lamport balances,
  rent-exempt minimum, token balances) to the next state, the transfers to make and
  the event to log. Instructions that call another program around their decisions
  are split in two at that call (`create_campaign_token` /
  `complete_create_campaign_token`, `sell_campaign_token` /
  `complete_sell_campaign_token`). `src/pda.rs` derives the program's account addresses from their seeds (through
  solana-program's `create_program_address`, the one outside call) for the account
  checks the instructions start with. `src/lifecycle.rs` holds the properties that
  relate instructions to one another; `src/utils/helper.rs` the lamport moves and
  the bonding-curve estimate with its monotonicity proofs.
- `app/` is the Anchor program around it: account validation, sysvars, the
  system-program, token-program and pump.fun calls, lamport write-back and events.
- `tests/` exercises the library on concrete values.
