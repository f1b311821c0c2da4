# oxen_files

The decisions of an Oxen file server, verified with Verus: which requests to download, upload,
remove, move or import a file are carried out, what exactly is asked of the repository for each,
and what each is answered.

* `src/` is the library. Every request handler is a state machine: a function from a state and an
  event to the next state and an action, with a contract that fixes both. The proof functions
  whose names begin with `law_` say what holds over a whole request.
* `tests/` runs the library on concrete requests.
* `app/` is the server around it: it reads requests, carries the actions out against the
  repository layer, and hands the outcomes back. The same goes for the `init` command.
