# dvs_studio

Verified core of the Do Vale Studio 4 video editor, written in Verus.

The library holds the editorial model and the decisions of the production
video window, each with a contract proved by Verus:

- `ids`, `time`, `selection`, `error`: identities, timeline time arithmetic
  with checked overflow, selection, domain errors.
- `media_pool`, `timeline`, `project`: the project document (registered
  assets, tracks of ordered, non-overlapping clips).
- `editor`, `history`: edit commands, undo and redo, specified by
  `apply_spec`, `undo_spec` and `redo_spec`.
- `laws`, `session`: what undo and redo give back after an edit, that an
  edit is recorded exactly when it changes the project, that a rejected edit
  or redo changes nothing, that every edit keeps a project sound (ordered
  tracks, unique identities, clips of registered assets, a valid selection),
  that undo and redo of a session's own history always succeed, and that
  undoing all of it gives back the starting project.
- `app_state`, `window_session`, `event_loop_schedule`, `pipeline`,
  `display`, `shutdown`: the window's lifecycle, smoke-test steps, event-loop
  wake schedule and playback steps, as functions from state and event to
  next state and actions.
- `frame_fields`: validation of a decoded frame's raw fields and its visible
  rectangle.
- `config`, `diagnostic`, `loop_metrics`, `metrics_summary`, `smoke_report`,
  `view_model`, `color`, `app_error`: command-line parsing, the bounded
  diagnostic log, counters and the text the application prints or shows.

`app/` is the command-line entry point. The window itself (event loop, GPU
surface, hardware decoding) is not part of this build.
