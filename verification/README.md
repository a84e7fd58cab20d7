# Settl

Payments in escrow for merchants, as a verified library.

Customers pay tokens into a merchant's escrow vault. A backend authority releases
what is pending: the platform's fee goes to a token account of the treasury wallet,
the rest to one of the merchant's wallet. The same authority registers merchants and
creates their escrows. A merchant's registered wallet can be changed only behind a
delay of a day.

- `src/` is the library, verified with Verus: the stored accounts (`state`), the
  accounts of each instruction (`accounts`), their constraints (`constraints`) and
  addresses (`address`), the handlers (`config`, `merchant`, `escrow`), the
  instructions as a whole (`processor`), and what holds of the program as a whole
  (`laws`).
- `app/` is the on-chain program around it. It creates accounts, orders token
  transfers, reads the clock and emits events.
- `tests/` runs the library on concrete values.

Instructions that move tokens come in two parts. The first checks the instruction
and says which transfers to order; the second books it once they were made.
