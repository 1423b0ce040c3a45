# db_proxy

A REST gateway in front of ten CockroachDB databases. What the gateway decides is verified with
Verus; what it does to the outside world is ordinary Rust around it.

- `src/` is the verified library. Each endpoint is a flow: it is started with what a request
  carries, asks for one statement after the other, and goes on with what each of them came to.
  The contract of an endpoint says what it answers for every sequence of replies. `src/laws.rs`
  states what holds of the gateway as a whole.
- `app/` holds the routes, the database connections, the clock, and everything that is computed
  with floating-point numbers.
- `tests/` runs the library on concrete values.

## Endpoints

| Route | Module |
| --- | --- |
| `GET /health` | `health` |
| `GET /api/databases` | `databases` |
| `GET /api/{database}/tables` | `tables` |
| `GET /api/{database}/{table}?limit=50&offset=0` | `page` |
| `GET /api/{database}/{table}/{record_id}` | `record` |
| `POST /api/{database}/{table}` | `insert` |
| `GET /api/market-radar` | `radar` |
| `GET /api/finance-cockpit` | `cockpit` |
| `GET /api/decision-brief/{id}` | `brief` |
| `GET /api/battery-erp-dashboard` | `battery` |

## Set-up

| Variable | Default |
| --- | --- |
| `PORT` | `8080` |
| `API_KEY` | unset: every request is admitted |
| `COCKROACH_HOST` | the cloud host of the databases |
| `COCKROACH_PORT` | `26257` |
| `COCKROACH_USER` | `cubiczan` |
| `COCKROACH_PASSWORD` | unset: no database can be reached |
| `COCKROACH_SSL` | `require`; `disable` for local development |
