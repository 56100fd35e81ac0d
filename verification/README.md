# vero_core_contracts

Weighted guardian consensus: guardians with reputation scores vote on tasks,
and a task is resolved once the accrued weight of its votes meets a threshold.

- `src/` is the verified library: the contract over its instance storage
  (`contract`), the administrator check (`admin`), the decision a vote makes from what it reads (`voting`), the
  storage itself (`storage`), the events (`events`), and the properties that
  span several operations (`laws`).
- `app/` is the contract as deployed on the host: signature checks, reads and
  writes of the host's storage, and event publication around the library's
  decisions.
- `tests/` runs the library on concrete scenarios.
