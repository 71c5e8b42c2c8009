# Myrient ROM Downloader

A desktop program that lists ROM archives, downloads the chosen ones several at a
time, and unpacks them.

`src/` holds every decision of the program as functions on plain values, with
contracts that Verus proves:

- `app` and `model`: the state of the window, messages to it, starting and queueing
- `selection`, `search`, `queue`, `patterns`, `navigation`, `panels`: what clicks do
- `download`: one download, step by step, from the request to the unpacked files
- `progress`: the table of downloads under way
- `text`, `filename`, `removal`: building blocks
- `download_laws`, `session_laws`, `window_laws`: what holds over whole runs

`app/` is the program around it: the window, the threads, the network and the disk.
