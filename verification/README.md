# lib

Verified parameters of the Parallel test runtimes:

- `weights`: the benchmarked dispatch weights of the system pallet (Heiko) and
  of the streaming pallet (Vanilla), with saturating arithmetic, proved equal
  to the saturated exact sums and monotone in item counts and storage costs.
- `location`: a model of XCM locations and assets and the conversions between
  them and the relay currencies (DOT, xDOT) and accounts, with round-trip laws.
- `accounts`: test accounts and the accounts derived from pallet and
  parachain ids.
- `config`: parameters of the crowdloans test runtime.
- `genesis`: the genesis steps of the test parachains and relay chain.

`app/` converts decimal DOT amounts given as floating point.
