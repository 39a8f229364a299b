# xjp_deploy_agent

The logic of a deploy agent as a verified library: it takes deployment
requests, queues them, carries them out step by step, tells a deploy center how
they fare, forwards ports through a tunnel, finds services in the network and
keeps itself up to date.

## Layout

- `src/` is the library. The contracts state what the functions return and what
  they change, and Verus proves them. Where a result rests on the clock, on
  chance or on who listens to a channel, the contract states what holds of every
  outcome.
  - `text`, `collections`, `time`: texts, tables in order of insertion, points in
    time.
  - `config`: what the environment says.
  - `domain`: deployments, databases, containers, tunnel messages, sessions.
  - `state`: tasks, log channels, tunnel clients, port listeners, and the state
    of the whole agent.
  - `services`: deployments as state machines (`services/deploy`), the tunnel,
    discovery, the service mesh, self-update, restarts, supervised processes.
  - `api`, `middleware`, `error`: what the HTTP interface answers.
  - `infra`: JSON, names, commands, requests to the deploy center.
  - `runtime`: the command line and the background tasks.
- `app/` is the program around the library: sockets, processes, files, the HTTP
  server and the SSH server.
- `tests/` runs the library on concrete values.

## How the parts fit

What waits for the outside world is written as a state machine. A machine takes
an event (the output of a command, a message, a timer) and gives the actions that
follow. The program performs the actions and hands the next event back. The
contracts fix every step; the laws, public proof functions beside the machines,
state what holds of whole runs, such as that a container is only replaced after a
healthy canary, or that a project never has two deployments at a time.

Calls into other crates stand behind small functions whose contracts are trusted.
Each names the function that it calls and what is claimed of it.
