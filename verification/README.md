# sanctum

A guess-the-password chat game: the player talks to a wizard, played by a
language model, who guards a password.

- `src/` is the verified library: levels, the chat transcript and how it
  grows, the prompts given to the model, the filter that keeps the model's
  stop sequence from reaching the player, and the routing of websocket frames.
- `app/` is the web front end (leptos) and the model server (actix, the
  language model) around it.
- `tests/` runs the library on concrete values.
