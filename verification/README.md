# charts_view

The state of a scrolling grid of charts: which entries it holds, which of them
are selected, the transition to an opened chart and back, and the deletion of
charts from disk.

`src/` is verified with Verus. It holds no clock, no widgets and no disk: times,
rectangles and scenes are type parameters, and what the outside answers is
handed in.

- `text`: labels, messages and paths
- `item`: charts and the entries that stand for them
- `data`: the charts on disk and the wish for a new list
- `delete`: the walk over the directories that are deleted
- `view`: the list, its transition and its deletion
- `touch`: a touch, phase by phase
- `render`: the cards of the entries
- `laws`: what holds over several operations

`app/` draws the grid with a toolkit of the program around it, and runs the
tasks.
