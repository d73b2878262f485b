# myprotocol

A request/response device protocol that runs over TCP or USB bulk endpoints.

- `src/` is the verified library: the frame format (`frame`), the decimal text
  of numbers that error messages and addresses use (`decimal`), time spans
  (`timespan`), the transport settings (`config`, `tcp`, `usb`), the choice of
  USB bulk endpoints and the assembly of exact-length bulk reads (`usb`), and the
  connection slot that every transport keeps (`link`).
- `app/` holds the async transports (tokio, rusb), the `Client` that unifies
  them, and the error type with `std::error::Error`.
- `tests/` runs the library on concrete values.
