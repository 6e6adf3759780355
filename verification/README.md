# leo_passes

Two passes over the syntax tree of a Leo program, written and proved in Verus.

- `storage_lowering` lowers storage variables and vectors to mappings. A storage variable `x`
  becomes the mapping `x__`; a vector `v` becomes `v__`, which holds its elements, and `v__len__`,
  which holds its length.
- `unused_items` warns of what is never used: functions, structs, constants, local variables and
  imports.

## Layout

- `ast`, `units`, `list`: the tree. It is made of immutable, shared nodes, so equality in contracts
  is equality of trees. `equality` decides it.
- `names`, `state`: interned names, node numbers, types of nodes and the symbol table.
- `walk`, `purity`: the variables that a tree mentions, and which expressions can be dropped.
- `collections`: the maps and sets of the `indexmap` crate, by what they hold.
- `storage_lowering`: `builders`, `zero`, `vectors` and `dynamic` say what single operations are
  lowered to, `reconstruct` what expressions are, `statements` and `emit` what statements are. The
  `reconstruct_*` and `emit_*` files compute it. `predicates` and `tail` decide where statements
  go, `join` plans how branches rejoin. `plain*` and `direct_values` say of what expressions are
  lowered to that it needs no more lowering, which the laws on where lowering ends rest on.
- `unused_items`: `events` and `item_events` say what a walk comes across, `uses` what follows from
  it, `live` which composites are used, `check` which items are warned of, `pass` all of it
  together. The `collect*` files walk.

## What is proved

Every executable function states its result as a function of its arguments and of the state before
it. Where a tree is not one that type checking lets through, the result is `Halt::IllFormed`. The
steps of lowering nest without a limit, short of what `usize` counts; `lower_statements` takes one
and gives `Halt::Depth` where it is run out of.

On top of that stand laws, public proof functions. Among them:

- what the operations on a vector are lowered to does to the mappings behind it what the operations
  do to a sequence (`storage_lowering::vector_laws`), and a read of a storage variable gives what
  was written last (`storage_lowering::variable_laws`), with `storage_lowering::meaning` as the
  meaning of lowered code;
- lowered blocks read no storage variable and hold no operation on a vector
  (`storage_lowering::lowered_statements`);
- statements that lower an arm of a ternary stay in its branch, together with all that consumes the
  value of the arm (`storage_lowering::laws`);
- the part of a tail that is replayed in each branch is as short as it can be
  (`storage_lowering::tail`), and so is the part of a tail in front of a join
  (`storage_lowering::join::cut`); what it becomes in a branch assigns no local variable
  (`storage_lowering::join::plan`);
- a limit on the depth changes nothing where it is not run out of (`storage_lowering::depth`), and
  lowering ends: there is a depth within which regular statements are lowered
  (`storage_lowering::ending_statements`). Statements are regular unless they hand a dynamic access
  to a member that is no vector to a call, or to an operation other than those on vectors: that is
  lowered without end (`storage_lowering::ending`). Types must be made of constants, and storage
  variables must not have the names of the mappings that lowering adds;
- the live composites are the least set that holds the used ones and all that its elements are made
  of (`unused_items::live`);
- scopes balance and leave what was in scope before them (`unused_items::balance`,
  `unused_items::laws`), a local variable is warned of if and only if nothing reads it, and `_` in
  front of a name silences (`unused_items::laws`).

What is not proved is what `collections` says of `indexmap`: each of the functions marked
`external_body` there calls one function of that crate.
