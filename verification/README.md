# strife

A small Discord gateway client. `src/` is the verified library: the gateway
payloads, the handshake as a state machine (hello, identify, reply, heartbeats) with the
decisions behind it (identify payload, reading the reply,
the sequence number the heartbeats report, the heartbeat delay), the table of
requests the background tasks wait on, and the parts of the REST request for
the gateway. `app/` holds the runtime: the websocket connection, the tasks,
the REST call, and the JSON forms of the payloads.
