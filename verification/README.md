# booking_api

A room booking service: users register and log in, book rooms over a time
range, list and cancel their bookings, and ask which rooms are free between
two dates.

- `src/` is the verified library. `calendar` holds dates and UTC instants as
  plain values; `availability` decides whether a room's stays leave a range
  of nights free; `password` and `credentials` hold the password and
  registration rules and the login and registration flows; `bookings` the
  booking flow and the reading of stored bookings; `rooms` the flow that
  reports each room's availability; `auth` the bearer-token reading;
  `errors` the errors and the HTTP answer each gets; `store` a model of
  the stored users and bookings as the service's statements read and write
  them, with what its decisions keep true of them. Each request that
  talks to the database several times is a flow: a value that takes the
  database's last answer and says what to do next.
- `app/` is the HTTP server: configuration, the PostgreSQL pool and its
  migrations, the Redis pool, routing,
  JSON forms of the values, token signing and checking, and the handlers
  that carry out each flow's database calls.
- `tests/` runs the library on concrete values.
