# fiat_verifier

A payment verifier gateway for content locks. It speaks the signed wire contract
that a Lock Server uses towards a Paykit Server (`POST /invoices`,
`POST /transactions/status`) and dispatches on the asset of the lock's payment
criterion:

- **Bitcoin** calls go on to the Paykit Server as they came, body and signature.
- **Fiat** invoices become correlations with a hosted checkout on Stripe or
  PayPal. Buyers fetch the checkout with `POST /checkout-sessions`; processor
  webhooks are hints; only a fresh read of the processor's API advances a
  correlation.

## Layout

| Where | What |
| --- | --- |
| `src/` | The library, verified by Verus: every function has a contract over a mathematical model. |
| `tests/` | Scenarios and edge cases, run with the real outside crates. |
| `app/` | The program: HTTP surface, Postgres, homeserver reads and processor calls. |

The endpoints are flows: a value asks for one action, is handed the answer, and
asks for the next action or ends with a reply. `app/` performs the actions. That
keeps every decision in `src/`, and lets the laws speak about any answer that the
outside world may give.

- `effects`: actions, answers and replies.
- `invoice`, `status`, `checkout`, `webhooks`, `worker`: the flows.
- `verification`, `mint`: the pull of a payment fact, and the minting of a session.
- `store`, `memory`: correlations, what a store does with them, and a store in memory.
- `stripe`, `paypal`, `api_call`, `money`: the processors' requests and answers.
- `auth`, `json`, `crypto`, `web_url`: signatures, documents and URLs; the calls
  into outside crates stand here behind stated contracts.
- `config`, `rate_limit`, `proxy`, `lock_fetch`, `wire`, `error`, `state`, `http`:
  configuration, limits, pass-through, content locks and wire shapes.
- `store_laws`, `flow_laws`: what holds whatever happens, as proof functions.

## What is proved

States only advance (created, paid, confirmed, with reversed as a branch that a
confirmed row never takes). A payment is recorded only when the processor's read
API attests it, and confirmed only after the settlement delay and a fresh read.
Webhooks are deduplicated and reverse nothing that a read does not corroborate.
Bitcoin calls pass unchanged. Replays are quiet, changed terms conflict, and a
row keeps the processor and the return origin it was bound to.
