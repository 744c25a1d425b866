# notify

A notification tool for agents. A request names a delivery method (a messaging
channel, Pushover or a webhook) and a message; the tool checks it, delivers the
message and reports what became of it.

The library in `src/` decides everything and touches nothing outside: it is
verified with Verus. A request goes from step to step. Each step says what is
needed next (ask the security policy, hand a message to a channel, read the
`.env` file, send an HTTP request), and the answer leads to the next step.

- `text`: characters, letter case, whitespace, lines, decimal numbers
- `json`: JSON values and their members
- `method`: the names of methods, message types and recipient id types
- `error`: why a notification was not delivered, in words
- `config`: the settings of the channels
- `payload`, `request`, `reply`: what is delivered, what is asked of the outside
  world, and what its replies mean
- `env`: credentials in a `.env` file
- `arguments`: what the arguments of a request ask for
- `backend`: the backends for channels, Pushover and webhooks, and their registry
- `tool`: the tool and its steps
- `schema`: how the tool presents itself
- `course`: the laws of a request as a whole

`app/` puts the library to work: the agent interface, the serialized forms of the
types, the file system and HTTP.
