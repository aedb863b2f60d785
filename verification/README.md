# bitcredit

The decision and formatting logic of the Bitcredit (e-bill) web front end, in
Verus, with its contracts proved.

- `src/` is the verified library:
  - `decimal` renders amounts in decimal;
  - `payment` decides whether a bill is paid and builds the `bitcoin:` link;
  - `keys` derives the payment address and the holder's private key of a bill
    with the `bitcoin` crate;
  - `bill_view` puts together the payment part of a bill's page;
  - `pages` picks the page or the answer of each route;
  - `issue` and `flows` plan and sequence the form routes as state machines;
  - `dates` gives the dates of a new bill with `chrono`;
  - `templates` registers the handlebars pages.
- `app/` holds the rocket routes, which do the file, network and time work and
  hand the results to the library.
- `tests/` runs the library on concrete values.
