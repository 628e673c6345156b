# heliobond

A verified library for a green-bond platform: a registry of renewable-energy
projects (whitelisting, scores with a rate-limited history, certification,
governance proposals, collateral, multi-signature administration, pausing)
and an investment vault that funds those projects (shares priced at net asset
value, an insurance reserve, flash loans, carbon credits, compliance records
and a Wormhole bridge payload codec).

- `src/` holds the logic, written in Verus with contracts over mathematical
  models of the registry and the vault; the laws that relate several
  operations stand in `registry_laws.rs`, `vault_laws.rs`, and beside the
  codec in `wormhole.rs`.
- `tests/` exercises the library on concrete values.
- `app/` is the Soroban host around it: authorisation, token transfers and
  minting, ledger time, and calls to the Wormhole core and flash-loan
  borrowers.

The vault's rules for investors, as `src/vault.rs` states them:

- a deposit lies between 100 USDC and one billion USDC, pays a 0.5 %
  insurance premium, and may not raise the share supply above ten billion
  shares;
- a deposit (or a bridge mint) locks the account's withdrawals for the rest
  of its ledger, unless a day has passed since;
- a withdrawal redeems at least 100 shares, pays no less than the caller's
  `min_usdc_return`, and at 50 %, 70 % and 90 % utilisation may take at most
  half, a quarter and a tenth of the liquid USDC; from 70 % it is preceded
  by a utilisation warning;
- a redemption the liquid USDC cannot cover is queued and paid, oldest
  first, by `claim`;
- the owner funds projects only from USDC above the insurance fund, never a
  project it owns, and not while the registry is paused.
