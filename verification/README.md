# constraint_evaluator

Violation-based evaluation of FlatZinc constraints. For an assignment of values to
the variables of a FlatZinc model, each constraint gets a violation: zero when the
assignment satisfies it, and otherwise a measure of how far it is from doing so.

## Layout

- `src/` — the library, written in Verus and verified:
  - `data_utility/` — the plain model of FlatZinc literals, arguments, arrays and
    constraints; variable values; linear sums; the text of verbose terms; JSON
    documents and the variables that constraints define.
  - `args_extractor/` — reading names, literals, coefficients and arrays out of
    constraint arguments.
  - `evaluator/` — compilation of integer, boolean and set constraints over
    register-held solutions, their violations, the set algebra they use, the
    dispatch by predicate name, the total and the domain violations; the boolean
    invariant evaluator over name-keyed solutions.
  - `functional_evaluator/` — boolean constraints over name-keyed solutions.
  - `heuristics/` — reading a FlatZinc model into the library's model, the index a
    variable name ends with, and the order in which the search visits the decision
    variables.
- `tests/` — tests of the library on concrete models and solutions.
- `app/` — the runtime around the library: file reading, the floating-point
  constraints, normalisation, and the particle swarm searches.

Each violation function has a contract that gives its value exactly, and the
library proves, per family of constraints, that a violation is zero exactly when
the constraint holds.
