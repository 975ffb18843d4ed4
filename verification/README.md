# fleet_backend

The backend of a fleet of mobile apps at fuel stations: users and sessions, the directory of
companies, the releases of the app, the pings of the devices, and the reading of fuel meters from
photos.

- `src/` is the library. It holds the rules, each with its contract, and Verus proves every one:
  what is checked, computed, decided, stored and answered.
  - `authentication`: the guard of the endpoints, logging in, signing up.
  - `companies`, `configuration`, `telemetry`: sites, releases, pings.
  - `meter_ocr`: the form with a photo, the request to the vision model and its answer, what a
    display means, the steps of a reading, and the confirmation by an attendant.
  - `json`, `reply`, `paging`, `text`: documents, answers, pages and texts.
  - `external`: the calls into other crates, with what is taken from them.
- `app/` is the service around it: routes, SQL, environment variables, the network, and the
  arithmetic on floating point numbers.
- `tests/` runs the library.
