# blog_web

A small blogging site built on Rocket, split in two:

- `src/` is the library, verified with Verus: user sessions and the text of
  the authentication cookie (`config`), flash labels (`helpers`), posts with
  their publication states and the plain-text summary of their HTML bodies
  (`models::posts`), user accounts with argon2-hashed passwords
  (`models::users`), and the decisions of the request handlers (`routes`).
  Calls into argon2, scraper and serde_json stand behind small trusted
  wrappers whose contracts are documented where they are declared.
- `app/` is the server: Rocket handlers, request guards, the database
  (Diesel over MySQL), templates, and copies of the library's types that
  carry the derives that Rocket, Diesel and serde need.

`tests/` exercises the library on concrete values.
