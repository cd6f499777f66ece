# Ternary Thermodynamics

Statistical mechanics for ternary agent systems: entropy, temperature,
Boltzmann distributions, partition functions, free energy and phase
transitions, for populations whose agents each play Rock, Paper or Scissors.

## Layout

- `src/` — the verified library (Verus). Real values enter it as their
  IEEE-754 binary64 encodings (`u64`), and every decision of the toolkit is
  proved over the order of the values those encodings denote:
  - `binary64` — the order of binary64 values on their encodings;
  - `strategy` — the three strategies and their slots in a triple;
  - `entropy` — the terms of the entropy of raw strategy counts;
  - `temperature` — thermal classification, and the two strategies a
    temperature is fitted from;
  - `transition` — the scan of a temperature sweep for phase transitions.
- `app/` — the floating-point toolkit (`TernaryDistribution`, entropies,
  partition function, Boltzmann distribution, free energies, the phase
  transition detector), which computes the values and hands their encodings
  to the library for every decision.
- `tests/` — tests of the library, including checks of the encoding order
  against the hardware's floating-point comparison.
