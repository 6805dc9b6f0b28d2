# ifconfig

Network interfaces of the system — name, index, MTU, hardware address,
unicast IP addresses and status flags — built from what the operating system
reports (netlink on Linux, `GetAdaptersAddresses` on Windows).

- `src/` is the verified library. `data_types` holds hardware addresses and
  their dashed hexadecimal form, IP address sets and status flags;
  `os::linux` builds interfaces from netlink link and address records;
  `os::windows` builds interfaces from adapter records and decides, step by
  step, the buffer-size protocol of the adapter query.
- `app/` reads the operating system and hands the records to the library.
- `tests/` runs the library on concrete records.
