# chatwoot_bridge

A bridge between a Chatwoot help desk and AI agents. It takes the webhooks of the
help desk, gathers the messages of a contact into turns, asks an agent for an
answer, checks that answer, and carries it out on the help desk. A scheduler
watches how long contacts wait and tells attendants.

The library (`src/`) holds every decision and is verified with Verus. The program
(`app/`) does the I/O: HTTP, PostgreSQL, Redis, the clock. It hands plain values to
the library and does what the library answers.

## Layout

- `api`, `api::process`: signed webhooks, from the signature to the buffer.
- `worker`: a run of the agent. `pipeline` says in which order, `inbound_gate`
  whether the agent may answer, `outbound_gate` what of its answer may go out,
  `apply_actions` and `script` what is done on the help desk.
- `agent`: prompts, requests to the providers, and what they answer.
- `chatwoot`: payloads, signatures, calls on the help desk, retries and the circuit
  breaker.
- `scheduler`: business hours, the escalation ladder, timers, reconciliation, purge.
- `notify`: notifications over Telegram, WhatsApp and e-mail.
- `store`: rows, keys, limiters.
- `state_machine`, `model`, `config`, `ratelimit`, `ids`, `secrets`, `error`: the
  domain.
- `text`, `json`, `duration`, `timestamp`, `pattern`, `similarity`, `weburl`: what the
  rest is built on.

Work that goes back and forth with the outside is written as a function from a stage
and an event to the next stage and an action (`api::process`, `worker::pipeline`,
`worker::script`, `scheduler::timer`). The functions named `law_...` state what holds
of whole runs.

## Program

`api`, `worker` and `scheduler` are the three parts; the first argument names the one
to start. Settings come from the environment; `TELEGRAM_CHAT_ID` names the chat that
the scheduler writes to, `ANTHROPIC_MODEL_FAMILY` how the names of the direct
provider's models begin. The worker does not start where a provider lacks its
credential.
