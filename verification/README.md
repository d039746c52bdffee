# NovelX studio

The rules of a studio for long-form fiction: which card asks the author for a
decision, what an answer to it means, and which step runs next. `src/` is a
library that Verus verifies; `app/` is the command line and the web service
around it.

The library decides over plain values. Tools, the model and the files are
outside: they hand in what they found and carry out what was decided.

## Layout

- `text`, `json`, `order`: texts, structured values, and sorted lists.
- `features`, `gates`, `intent`: switches, the catalog of cards, and requests
  that are understood without the model.
- `thread_state`, `threads`, `session`, `runtime`, `agent`, `protocol`: a thread
  and its cards, turns, input that waits, and sub-agents.
- `offers`, `volume`, `chapter_offers`, `audit_offers`, `chain`: the cards that
  open after a tool ran, and the order in which they are tried.
- `turn`, `parse_ops`, `confirm`, `picks`, `stage_picks`, `steer`, `plot_write`:
  what a request means, and what follows an answer.
- `tool_loop`, `progress`, `prompts`, `studio_prompt`, `writing`: the rounds with
  the model, and what is said.
- `issues`, `audit_decisions`, `decision_council`: issues of an audit, their
  buttons, and the council that decides without asking.
- `impact`, `cascade`: what depends on a change, and how it is brought along.
- `open_gate`, `reconcile`: the card that is shown, and cards after a restart.
- `content`, `preview`, `server`, `dotenv`, `ops_journal`: edited files, the
  overview, the web service, environment files, and the journal.
- `parallel`, `merging`: laws on numbers that a text names, and on a tool's
  stream once its final output is joined to it.

Each module states its model as `open spec` functions over views (`ThreadV`,
`JsonV`, ...). Public proof functions state what holds across functions.
