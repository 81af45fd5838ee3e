# Friday

Remote diagnosis of JVM services: on virtual machines over SSH, and in Kubernetes pods through
`kubectl` on their hosts. Friday brings a JDK or arthas to a target, attaches arthas to a JVM and
connects to it, makes JFR recordings and fetches them, and offers all of that to agents as tools.

- `src/` is the library, written in Verus. It holds every decision: which command runs next, how
  its output is read, what is cleaned up when something fails, what a tool answers. Each function
  carries a contract, and the laws that span several functions (nothing is left behind, a session
  in use is never touched, a recording is only shown when it runs) stand beside them as proofs.
- `app/` is the application around it: it runs the commands, opens the tunnels, reads the
  database, serves the tools, and hands back what came of it.
- `tests/` drives the library through scripted surroundings.

Work that has to wait for the outside is a value in the library: `request()` says what it waits
for, `step()` takes what came of it, and `budget()` says how long the wait may take. The module
`flow` holds the vocabulary of the orchestrations, `tools::call` that of the tools.
