# website

The verified logic of a small personal website, written in Verus.

- `src/` is the library, checked by Verus:
  - `host.rs`: the host check that every request passes first (teapot for the favicon,
    plain text for `.env` files, the jail for foreign hosts and probe paths, and the source
    address for the rest), with laws about which requests get through.
  - `state.rs`: the jail's choice of file, kept for 30 seconds and then picked anew at
    random, with laws about how long a file is kept.
  - `jail.rs`: the jail's fixed answers and the headers put on jail files.
  - `pages.rs`: the message of the day and the texts that pages serve.
  - `blog.rs`: where a blog post is read from and the page made of its Markdown.
  - `text.rs`, `net.rs`, `random.rs`: text helpers, source addresses and calls into `rand`.
- `app/` is the server around it: routing, templates, file reading, the tower middleware
  and the futures that answer requests.
- `tests/` runs the library on concrete requests and states.
