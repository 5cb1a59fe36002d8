# ic-http-lb

An HTTP load balancer that runs in front of HTTP gateways. It spreads requests over a set of
backends, checks their health, terminates TLS and offers an API to change its configuration.

The rules by which it does so are a library that is verified with Verus:

- `src/backend.rs`: the configuration of the backends, the routers over them, their health
- `src/reconfiguration.rs`: what holds when the configuration is changed
- `src/routing.rs`: buffering, retries, error responses, the choice between API and backends
- `src/retries.rs`: what holds of every course that a request can take
- `src/api.rs`: authorization, routes and answers of the API
- `src/middleware/`: request IDs, metrics, log lines and events
- `src/metrics.rs`: the snapshot that the metrics endpoint serves
- `src/tls.rs`, `src/startup.rs`, `src/cli.rs`: settings, and what is started because of them
- `src/headers.rs`, `src/uri.rs`, `src/text.rs`, `src/time.rs`: the values all of this works on

`app/` is the program around it: the command line, files, signals, clients and servers.

## Configuration

```
strategy: wrr

backends:
  - name: host1
    url: http://host1
    weight: 1
    enabled: true

  - name: host2
    url: http://host2
    weight: 2
    enabled: true
```
